//! Severity levels and the thresholds that classify metric values.
//!
//! Percentages are expressed in hundredths of a percent (`1000` is 10%),
//! temperatures in thousandths of a degree Celsius (`75_000` is 75C) and
//! memory in megabytes.

use vstd::prelude::*;

verus! {

/// Severity level for a metric.
#[derive(Clone, Copy, PartialEq, Eq, Debug, Structural)]
pub enum Severity {
    /// Normal operating range
    Normal,
    /// Approaching problematic levels
    Warning,
    /// Critical - immediate attention needed
    Critical,
}

impl Default for Severity {
    fn default() -> (s: Self)
        ensures
            s == Severity::Normal,
    {
        Severity::Normal
    }
}

/// Classification of a metric for which large values are bad: critical at or
/// above `critical`, otherwise warning at or above `warning`.
pub open spec fn high_is_bad(value: int, warning: int, critical: int) -> Severity {
    if value >= critical {
        Severity::Critical
    } else if value >= warning {
        Severity::Warning
    } else {
        Severity::Normal
    }
}

/// Classification of a metric for which small values are bad: critical at or
/// below `critical`, otherwise warning at or below `warning`.
pub open spec fn low_is_bad(value: int, warning: int, critical: int) -> Severity {
    if value <= critical {
        Severity::Critical
    } else if value <= warning {
        Severity::Warning
    } else {
        Severity::Normal
    }
}

/// Urgency order of severities: `Normal` < `Warning` < `Critical`.
pub open spec fn severity_level(s: Severity) -> int {
    match s {
        Severity::Normal => 0,
        Severity::Warning => 1,
        Severity::Critical => 2,
    }
}

/// Threshold configuration for all monitored metrics.
#[derive(Clone, Copy, Debug)]
pub struct Thresholds {
    /// I/O pressure warning threshold (hundredths of a percent)
    pub io_pressure_warning: i64,
    /// I/O pressure critical threshold (hundredths of a percent)
    pub io_pressure_critical: i64,
    /// CPU usage warning threshold (hundredths of a percent)
    pub cpu_usage_warning: i64,
    /// Memory available warning threshold (MB)
    pub memory_available_warning_mb: u64,
    /// Memory available critical threshold (MB)
    pub memory_available_critical_mb: u64,
    /// CPU temperature warning threshold (thousandths of a degree C)
    pub cpu_temp_warning: i64,
    /// CPU temperature critical threshold (thousandths of a degree C)
    pub cpu_temp_critical: i64,
    /// DIMM temperature warning threshold (thousandths of a degree C)
    pub dimm_temp_warning: i64,
    /// DIMM temperature critical threshold (thousandths of a degree C)
    pub dimm_temp_critical: i64,
    /// Disk temperature warning threshold (thousandths of a degree C)
    pub disk_temp_warning: i64,
    /// Disk temperature critical threshold (thousandths of a degree C)
    pub disk_temp_critical: i64,
    /// Memory pressure warning threshold (hundredths of a percent)
    pub mem_pressure_warning: i64,
    /// Memory pressure critical threshold (hundredths of a percent)
    pub mem_pressure_critical: i64,
    /// I/O wait percentage warning threshold (hundredths of a percent)
    pub iowait_warning: i64,
    /// I/O wait percentage critical threshold (hundredths of a percent)
    pub iowait_critical: i64,
}

impl Default for Thresholds {
    fn default() -> (t: Self)
        ensures
            t.io_pressure_warning == 1000,
            t.io_pressure_critical == 2500,
            t.cpu_usage_warning == 8000,
            t.memory_available_warning_mb == 1024,
            t.memory_available_critical_mb == 256,
            t.cpu_temp_warning == 75_000,
            t.cpu_temp_critical == 85_000,
            t.dimm_temp_warning == 70_000,
            t.dimm_temp_critical == 80_000,
            t.disk_temp_warning == 50_000,
            t.disk_temp_critical == 60_000,
            t.mem_pressure_warning == 1000,
            t.mem_pressure_critical == 2500,
            t.iowait_warning == 2000,
            t.iowait_critical == 4000,
    {
        Thresholds {
            io_pressure_warning: 1000,
            io_pressure_critical: 2500,
            cpu_usage_warning: 8000,
            memory_available_warning_mb: 1024,
            memory_available_critical_mb: 256,
            cpu_temp_warning: 75_000,
            cpu_temp_critical: 85_000,
            dimm_temp_warning: 70_000,
            dimm_temp_critical: 80_000,
            disk_temp_warning: 50_000,
            disk_temp_critical: 60_000,
            mem_pressure_warning: 1000,
            mem_pressure_critical: 2500,
            iowait_warning: 2000,
            iowait_critical: 4000,
        }
    }
}

fn classify_high(value: i64, warning: i64, critical: i64) -> (s: Severity)
    ensures
        s == high_is_bad(value as int, warning as int, critical as int),
{
    if value >= critical {
        Severity::Critical
    } else if value >= warning {
        Severity::Warning
    } else {
        Severity::Normal
    }
}

impl Thresholds {
    /// Evaluate I/O pressure severity (`value` in hundredths of a percent).
    pub fn io_pressure_severity(&self, value: i64) -> (s: Severity)
        ensures
            s == high_is_bad(value as int, self.io_pressure_warning as int, self.io_pressure_critical as int),
    {
        classify_high(value, self.io_pressure_warning, self.io_pressure_critical)
    }

    /// Evaluate CPU usage severity (`value` in hundredths of a percent).
    /// CPU usage is never critical on its own.
    pub fn cpu_usage_severity(&self, value: i64) -> (s: Severity)
        ensures
            s == (if value >= self.cpu_usage_warning { Severity::Warning } else { Severity::Normal }),
    {
        if value >= self.cpu_usage_warning {
            Severity::Warning
        } else {
            Severity::Normal
        }
    }

    /// Evaluate memory available severity (inverted - low is bad).
    pub fn memory_available_severity(&self, value_mb: u64) -> (s: Severity)
        ensures
            s == low_is_bad(value_mb as int, self.memory_available_warning_mb as int, self.memory_available_critical_mb as int),
    {
        if value_mb <= self.memory_available_critical_mb {
            Severity::Critical
        } else if value_mb <= self.memory_available_warning_mb {
            Severity::Warning
        } else {
            Severity::Normal
        }
    }

    /// Evaluate CPU temperature severity (`value` in thousandths of a degree C).
    pub fn cpu_temp_severity(&self, value: i64) -> (s: Severity)
        ensures
            s == high_is_bad(value as int, self.cpu_temp_warning as int, self.cpu_temp_critical as int),
    {
        classify_high(value, self.cpu_temp_warning, self.cpu_temp_critical)
    }

    /// Evaluate DIMM temperature severity (`value` in thousandths of a degree C).
    pub fn dimm_temp_severity(&self, value: i64) -> (s: Severity)
        ensures
            s == high_is_bad(value as int, self.dimm_temp_warning as int, self.dimm_temp_critical as int),
    {
        classify_high(value, self.dimm_temp_warning, self.dimm_temp_critical)
    }

    /// Evaluate disk temperature severity (`value` in thousandths of a degree C).
    pub fn disk_temp_severity(&self, value: i64) -> (s: Severity)
        ensures
            s == high_is_bad(value as int, self.disk_temp_warning as int, self.disk_temp_critical as int),
    {
        classify_high(value, self.disk_temp_warning, self.disk_temp_critical)
    }

    /// Evaluate memory pressure severity (`value` in hundredths of a percent).
    pub fn mem_pressure_severity(&self, value: i64) -> (s: Severity)
        ensures
            s == high_is_bad(value as int, self.mem_pressure_warning as int, self.mem_pressure_critical as int),
    {
        classify_high(value, self.mem_pressure_warning, self.mem_pressure_critical)
    }

    /// Evaluate I/O wait percentage severity (`iowait_pct` in hundredths of a percent).
    pub fn iowait_severity(&self, iowait_pct: i64) -> (s: Severity)
        ensures
            s == high_is_bad(iowait_pct as int, self.iowait_warning as int, self.iowait_critical as int),
    {
        classify_high(iowait_pct, self.iowait_warning, self.iowait_critical)
    }
}

/// A metric for which large values are bad can only get more severe as the
/// value grows, provided the warning bound does not exceed the critical one.
pub proof fn lemma_high_is_bad_monotonic(v1: int, v2: int, warning: int, critical: int)
    requires
        v1 <= v2,
        warning <= critical,
    ensures
        severity_level(high_is_bad(v1, warning, critical)) <= severity_level(high_is_bad(v2, warning, critical)),
{
}

/// Available memory can only get more severe as it shrinks, provided the
/// critical bound does not exceed the warning one.
pub proof fn lemma_low_is_bad_monotonic(v1: int, v2: int, warning: int, critical: int)
    requires
        v1 <= v2,
        critical <= warning,
    ensures
        severity_level(low_is_bad(v2, warning, critical)) <= severity_level(low_is_bad(v1, warning, critical)),
{
}

/// The bounds are inclusive: a value is critical from the critical bound on,
/// a warning from the warning bound on below the critical one, and normal
/// below both. For metrics where small values are bad the same holds
/// downwards.
pub proof fn lemma_bounds_are_inclusive(v: int, warning: int, critical: int)
    ensures
        high_is_bad(v, warning, critical) == Severity::Critical <==> v >= critical,
        high_is_bad(v, warning, critical) == Severity::Warning <==> (warning <= v && v < critical),
        high_is_bad(v, warning, critical) == Severity::Normal <==> (v < warning && v < critical),
        low_is_bad(v, warning, critical) == Severity::Critical <==> v <= critical,
        low_is_bad(v, warning, critical) == Severity::Warning <==> (critical < v && v <= warning),
        low_is_bad(v, warning, critical) == Severity::Normal <==> (v > warning && v > critical),
{
}

} // verus!
