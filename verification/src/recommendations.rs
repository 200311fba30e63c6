//! Actionable recommendations.
//!
//! This module analyzes metrics and generates actionable advice when issues
//! are detected. Percentages are hundredths of a percent, temperatures
//! thousandths of a degree Celsius, uptimes hundredths of a second.

use std::collections::VecDeque;
use vstd::prelude::*;
use vstd::string::*;
use crate::text::{decimal_digits, push_decimal, push_fixed_whole, round_half_even, round_ratio, str_is, whole_text};
use crate::thresholds::{high_is_bad, low_is_bad, Severity, Thresholds};

verus! {

broadcast use vstd::std_specs::vec::group_vec_axioms;

/// One sample of the system metrics that recommendations look at.
#[derive(Clone, Debug)]
pub struct Metrics {
    /// PSI `some avg10` for I/O (hundredths of a percent)
    pub io_pressure_some_avg10: Option<i64>,
    /// PSI `some avg10` for memory (hundredths of a percent)
    pub mem_pressure_some_avg10: Option<i64>,
    /// Pages swapped in during the sample
    pub pswpin: u64,
    /// Pages swapped out during the sample
    pub pswpout: u64,
    /// Available memory (MB)
    pub mem_available_mb: u64,
    /// CPU temperature (thousandths of a degree C)
    pub cpu_temp_millicelsius: Option<i64>,
    /// Hottest DIMM (thousandths of a degree C)
    pub dimm_temp_max: Option<i64>,
    /// Hottest disk (thousandths of a degree C)
    pub disk_temp_max: Option<i64>,
    /// CPU time in user mode during the sample (jiffies)
    pub cpu_user: u64,
    /// CPU time in kernel mode during the sample (jiffies)
    pub cpu_system: u64,
    /// CPU idle time during the sample (jiffies)
    pub cpu_idle: u64,
    /// CPU time waiting for I/O during the sample (jiffies)
    pub cpu_iowait: u64,
    /// CPU usage (hundredths of a percent)
    pub cpu_usage_percent: i64,
    /// Major page faults during the sample
    pub pgmajfault: u64,
    /// Dirty page cache (MB)
    pub dirty_mb: u64,
    /// Worst IPMI DIMM sensor status (`nr`, `cr`, `nc`, ...)
    pub ipmi_dimm_status: Option<String>,
    /// Description of the DIMM sensors behind that status
    pub ipmi_dimm_details: Option<String>,
    /// System uptime (hundredths of a second)
    pub uptime_centisecs: u64,
    /// Sum of the NVMe unsafe shutdown counters
    pub smart_unsafe_shutdowns_total: Option<u64>,
}

impl Default for Metrics {
    fn default() -> (m: Self)
        ensures
            m.io_pressure_some_avg10 is None,
            m.mem_pressure_some_avg10 is None,
            m.pswpin == 0 && m.pswpout == 0 && m.mem_available_mb == 0,
            m.cpu_temp_millicelsius is None && m.dimm_temp_max is None && m.disk_temp_max is None,
            m.cpu_user == 0 && m.cpu_system == 0 && m.cpu_idle == 0 && m.cpu_iowait == 0,
            m.cpu_usage_percent == 0 && m.pgmajfault == 0 && m.dirty_mb == 0,
            m.ipmi_dimm_status is None && m.ipmi_dimm_details is None,
            m.uptime_centisecs == 0 && m.smart_unsafe_shutdowns_total is None,
    {
        Metrics {
            io_pressure_some_avg10: None,
            mem_pressure_some_avg10: None,
            pswpin: 0,
            pswpout: 0,
            mem_available_mb: 0,
            cpu_temp_millicelsius: None,
            dimm_temp_max: None,
            disk_temp_max: None,
            cpu_user: 0,
            cpu_system: 0,
            cpu_idle: 0,
            cpu_iowait: 0,
            cpu_usage_percent: 0,
            pgmajfault: 0,
            dirty_mb: 0,
            ipmi_dimm_status: None,
            ipmi_dimm_details: None,
            uptime_centisecs: 0,
            smart_unsafe_shutdowns_total: None,
        }
    }
}

/// A recommendation with severity and actionable advice.
#[derive(Clone, Debug)]
pub struct Recommendation {
    /// Severity level of the issue
    pub severity: Severity,
    /// Short title for the issue
    pub title: String,
    /// Actionable advice for resolving the issue
    pub advice: String,
}

pub ghost struct RecommendationView {
    pub severity: Severity,
    pub title: Seq<char>,
    pub advice: Seq<char>,
}

impl View for Recommendation {
    type V = RecommendationView;

    open spec fn view(&self) -> RecommendationView {
        RecommendationView { severity: self.severity, title: self.title@, advice: self.advice@ }
    }
}

pub open spec fn rec_views(v: Seq<Recommendation>) -> Seq<RecommendationView> {
    v.map_values(|r: Recommendation| r@)
}

pub open spec fn opt_recs(o: Option<Recommendation>) -> Seq<RecommendationView> {
    match o {
        Some(r) => seq![r@],
        None => seq![],
    }
}

/// A single recommendation.
pub open spec fn rec(severity: Severity, title: Seq<char>, advice: Seq<char>) -> Seq<
    RecommendationView,
> {
    seq![RecommendationView { severity, title, advice }]
}

/// The recommendation for I/O pressure.
pub open spec fn io_pressure_recs(m: Metrics, t: Thresholds) -> Seq<RecommendationView> {
    match m.io_pressure_some_avg10 {
        None => seq![],
        Some(io) => {
            let s = high_is_bad(io as int, t.io_pressure_warning as int, t.io_pressure_critical as int);
            if s == Severity::Critical {
                rec(s, "High I/O Pressure"@, "Check: iotop, iostat -x 1, dmesg for disk errors"@)
            } else if s == Severity::Warning {
                rec(s, "Elevated I/O Pressure"@, "Monitor: iotop -o to identify I/O-heavy processes"@)
            } else {
                seq![]
            }
        },
    }
}

/// The recommendation for memory pressure.
pub open spec fn mem_pressure_recs(m: Metrics, t: Thresholds) -> Seq<RecommendationView> {
    match m.mem_pressure_some_avg10 {
        None => seq![],
        Some(mem) => {
            let s = high_is_bad(mem as int, t.mem_pressure_warning as int, t.mem_pressure_critical as int);
            if s == Severity::Critical {
                rec(s, "High Memory Pressure"@, "Check: ps aux --sort=-%mem | head, consider adding RAM"@)
            } else if s == Severity::Warning {
                rec(s, "Memory Pressure Detected"@, "Monitor: free -h, check for memory-hungry processes"@)
            } else {
                seq![]
            }
        },
    }
}

/// The recommendation for swap activity.
pub open spec fn swap_recs(m: Metrics) -> Seq<RecommendationView> {
    if m.pswpin > 0 || m.pswpout > 0 {
        rec(
            Severity::Warning,
            "Swap Activity"@,
            "Swapping in:"@ + decimal_digits(m.pswpin as nat) + " out:"@ + decimal_digits(
                m.pswpout as nat,
            ) + ". Check: ps aux --sort=-%mem"@,
        )
    } else {
        seq![]
    }
}

/// The recommendation for low available memory.
pub open spec fn low_memory_recs(m: Metrics, t: Thresholds) -> Seq<RecommendationView> {
    let s = low_is_bad(m.mem_available_mb as int, t.memory_available_warning_mb as int, t.memory_available_critical_mb as int);
    if s == Severity::Critical {
        rec(
            Severity::Critical,
            "Critically Low Memory"@,
            "Only "@ + decimal_digits(m.mem_available_mb as nat)
                + " MB available. Kill processes or add RAM immediately"@,
        )
    } else if s == Severity::Warning {
        rec(
            Severity::Warning,
            "Low Available Memory"@,
            decimal_digits(m.mem_available_mb as nat) + " MB available. Monitor memory usage closely"@,
        )
    } else {
        seq![]
    }
}

/// `temp` (thousandths of a degree) in whole degrees, as `{:.0}` prints it.
pub open spec fn degrees(temp: i64) -> Seq<char> {
    whole_text(temp as int, 1000)
}

/// The recommendation for CPU temperature.
pub open spec fn cpu_temp_recs(m: Metrics, t: Thresholds) -> Seq<RecommendationView> {
    match m.cpu_temp_millicelsius {
        None => seq![],
        Some(temp) => {
            let s = high_is_bad(temp as int, t.cpu_temp_warning as int, t.cpu_temp_critical as int);
            if s == Severity::Critical {
                rec(
                    s,
                    "CPU Overheating"@,
                    "CPU at "@ + degrees(temp) + "C. Check cooling, clean dust, verify thermal paste"@,
                )
            } else if s == Severity::Warning {
                rec(s, "CPU Running Hot"@, "CPU at "@ + degrees(temp) + "C. Consider improving cooling"@)
            } else {
                seq![]
            }
        },
    }
}

/// The recommendation for DIMM temperature.
pub open spec fn dimm_temp_recs(m: Metrics, t: Thresholds) -> Seq<RecommendationView> {
    match m.dimm_temp_max {
        None => seq![],
        Some(temp) => {
            let s = high_is_bad(temp as int, t.dimm_temp_warning as int, t.dimm_temp_critical as int);
            if s == Severity::Critical {
                rec(
                    s,
                    "RAM Overheating"@,
                    "DIMM at "@ + degrees(temp) + "C. Check case airflow, consider RAM cooling"@,
                )
            } else if s == Severity::Warning {
                rec(s, "RAM Running Warm"@, "DIMM at "@ + degrees(temp) + "C. Ensure adequate airflow"@)
            } else {
                seq![]
            }
        },
    }
}

/// The recommendation for disk temperature.
pub open spec fn disk_temp_recs(m: Metrics, t: Thresholds) -> Seq<RecommendationView> {
    match m.disk_temp_max {
        None => seq![],
        Some(temp) => {
            let s = high_is_bad(temp as int, t.disk_temp_warning as int, t.disk_temp_critical as int);
            if s == Severity::Critical {
                rec(
                    s,
                    "Disk Overheating"@,
                    "Disk at "@ + degrees(temp) + "C. Check cooling, may cause data loss"@,
                )
            } else if s == Severity::Warning {
                rec(s, "Disk Running Hot"@, "Disk at "@ + degrees(temp) + "C. Consider better cooling"@)
            } else {
                seq![]
            }
        },
    }
}

/// All CPU time of the sample.
pub open spec fn cpu_total(m: Metrics) -> int {
    m.cpu_user + m.cpu_system + m.cpu_idle + m.cpu_iowait
}

/// The sample's CPU time fits in a `u64` (summing it does not overflow).
pub open spec fn cpu_total_fits(m: Metrics) -> bool {
    cpu_total(m) <= u64::MAX
}

/// The recommendation for I/O wait: the share of CPU time spent waiting for
/// I/O, compared with the thresholds exactly, shown in whole percent.
pub open spec fn iowait_recs(m: Metrics, t: Thresholds) -> Seq<RecommendationView> {
    let total = cpu_total(m);
    if total > 0 {
        let pct = (10000 * m.cpu_iowait) / total;
        let shown = decimal_digits(round_half_even((100 * m.cpu_iowait) as nat, total as nat));
        let s = high_is_bad(pct, t.iowait_warning as int, t.iowait_critical as int);
        if s == Severity::Critical {
            rec(s, "Severe I/O Wait"@, shown + "% CPU waiting for I/O. Disk is severe bottleneck"@)
        } else if s == Severity::Warning {
            rec(s, "High I/O Wait"@, shown + "% CPU waiting for I/O. Disk may be bottleneck"@)
        } else {
            seq![]
        }
    } else {
        seq![]
    }
}

/// The recommendation for CPU usage.
pub open spec fn cpu_usage_recs(m: Metrics, t: Thresholds) -> Seq<RecommendationView> {
    if m.cpu_usage_percent >= t.cpu_usage_warning {
        rec(
            Severity::Warning,
            "High CPU Usage"@,
            "CPU at "@ + whole_text(m.cpu_usage_percent as int, 100)
                + "%. Check: top, htop for CPU-intensive processes"@,
        )
    } else {
        seq![]
    }
}

/// The recommendation for major page faults (thrashing indicator).
pub open spec fn major_fault_recs(m: Metrics) -> Seq<RecommendationView> {
    if m.pgmajfault > 100 {
        rec(
            Severity::Warning,
            "High Major Faults"@,
            decimal_digits(m.pgmajfault as nat)
                + " major faults. System may be thrashing. Add RAM or reduce load"@,
        )
    } else {
        seq![]
    }
}

/// The recommendation for dirty pages (write backlog).
pub open spec fn dirty_recs(m: Metrics) -> Seq<RecommendationView> {
    if m.dirty_mb > 1024 {
        rec(
            Severity::Warning,
            "High Dirty Pages"@,
            decimal_digits(m.dirty_mb as nat) + " MB waiting to be written. I/O may be backed up"@,
        )
    } else {
        seq![]
    }
}

/// The DIMM sensor description that IPMI advice starts with: the reported
/// details, or where to look for them.
pub open spec fn dimm_details(m: Metrics) -> Seq<char> {
    match m.ipmi_dimm_details {
        Some(d) => d@,
        None => "Check: sudo ipmitool sensor list | grep -i dimm"@,
    }
}

/// The IPMI DIMM status is `code`.
pub open spec fn dimm_status_is(m: Metrics, code: Seq<char>) -> bool {
    match m.ipmi_dimm_status {
        Some(status) => status@ == code,
        None => false,
    }
}

/// The recommendation for the IPMI DIMM status reported by the BMC.
pub open spec fn ipmi_recs(m: Metrics) -> Seq<RecommendationView> {
    match m.ipmi_dimm_status {
        None => seq![],
        Some(status) => {
            let details = dimm_details(m);
            if status@ == "nr"@ {
                rec(
                    Severity::Critical,
                    "DIMM NON-RECOVERABLE"@,
                    details + ". Check BMC logs: sudo ipmitool sel list"@,
                )
            } else if status@ == "cr"@ {
                rec(Severity::Critical, "DIMM CRITICAL"@, details + ". Check cooling immediately"@)
            } else if status@ == "nc"@ {
                rec(Severity::Warning, "DIMM Warning"@, details + ". Monitor closely"@)
            } else {
                seq![]
            }
        },
    }
}

/// Every recommendation that the single sample `m` calls for, in the order
/// the checks run.
pub open spec fn candidates(m: Metrics, t: Thresholds) -> Seq<RecommendationView> {
    io_pressure_recs(m, t) + mem_pressure_recs(m, t) + swap_recs(m) + low_memory_recs(m, t)
        + cpu_temp_recs(m, t) + dimm_temp_recs(m, t) + disk_temp_recs(m, t) + iowait_recs(m, t)
        + cpu_usage_recs(m, t) + major_fault_recs(m) + dirty_recs(m) + ipmi_recs(m)
}

/// The recommendations of `s` with severity `sev`, in order.
pub open spec fn with_severity(s: Seq<RecommendationView>, sev: Severity) -> Seq<
    RecommendationView,
>
    decreases s.len(),
{
    if s.len() == 0 {
        seq![]
    } else {
        let rest = with_severity(s.drop_last(), sev);
        if s.last().severity == sev {
            rest.push(s.last())
        } else {
            rest
        }
    }
}

/// `s` ordered by severity, most urgent first, keeping the order of
/// recommendations of equal severity (a stable sort).
pub open spec fn by_severity(s: Seq<RecommendationView>) -> Seq<RecommendationView> {
    with_severity(s, Severity::Critical) + with_severity(s, Severity::Warning) + with_severity(
        s,
        Severity::Normal,
    )
}

/// Rank a severity for sorting, with the most urgent issues first.
pub open spec fn rank(severity: Severity) -> u8 {
    match severity {
        Severity::Critical => 0,
        Severity::Warning => 1,
        Severity::Normal => 2,
    }
}

/// Rank a severity for sorting, with the most urgent issues first.
pub fn severity_rank(severity: Severity) -> (r: u8)
    ensures
        r == rank(severity),
{
    match severity {
        Severity::Critical => 0,
        Severity::Warning => 1,
        Severity::Normal => 2,
    }
}

/// Order recommendations by severity, most urgent first; recommendations of
/// equal severity keep their order.
pub fn sort_by_severity(recs: Vec<Recommendation>) -> (r: Vec<Recommendation>)
    ensures
        rec_views(r@) == by_severity(rec_views(recs@)),
{
    let ghost all = rec_views(recs@);
    let mut rest = recs;
    let mut critical: Vec<Recommendation> = Vec::new();
    let mut warning: Vec<Recommendation> = Vec::new();
    let mut normal: Vec<Recommendation> = Vec::new();
    let n = rest.len();
    let mut k: usize = 0;
    while k < n
        invariant
            k <= n,
            n == all.len(),
            rest@.len() == n - k,
            forall|j: int| 0 <= j < rest@.len() ==> (#[trigger] rest@[j])@ == all[k + j],
            rec_views(critical@) == with_severity(all.take(k as int), Severity::Critical),
            rec_views(warning@) == with_severity(all.take(k as int), Severity::Warning),
            rec_views(normal@) == with_severity(all.take(k as int), Severity::Normal),
        decreases n - k,
    {
        let ghost before_rest = rest@;
        let r = rest.remove(0);
        assert(r@ == all[k as int]);
        assert(all.take(k + 1).drop_last() =~= all.take(k as int));
        assert(all.take(k + 1).last() == all[k as int]);
        assert forall|j: int| 0 <= j < rest@.len() implies (#[trigger] rest@[j])@ == all[k + 1 + j] by {
            assert(rest@[j] == before_rest[j + 1]);
        }
        let ghost c0 = critical@;
        let ghost w0 = warning@;
        let ghost n0 = normal@;
        match r.severity {
            Severity::Critical => {
                critical.push(r);
                assert(rec_views(critical@) =~= rec_views(c0).push(all[k as int]));
            },
            Severity::Warning => {
                warning.push(r);
                assert(rec_views(warning@) =~= rec_views(w0).push(all[k as int]));
            },
            Severity::Normal => {
                normal.push(r);
                assert(rec_views(normal@) =~= rec_views(n0).push(all[k as int]));
            },
        }
        k = k + 1;
    }
    assert(all.take(n as int) =~= all);
    let ghost c = critical@;
    let ghost w = warning@;
    critical.append(&mut warning);
    critical.append(&mut normal);
    assert(rec_views(critical@) =~= rec_views(c) + rec_views(w) + with_severity(all, Severity::Normal));
    critical
}


fn make(severity: Severity, title: &str, advice: String) -> (r: Recommendation)
    ensures
        r@ == (RecommendationView { severity, title: title@, advice: advice@ }),
{
    Recommendation { severity, title: String::from_str(title), advice }
}

/// `a`, the decimal form of `n`, then `b`.
fn text_number(a: &str, n: u64, b: &str) -> (s: String)
    ensures
        s@ == a@ + decimal_digits(n as nat) + b@,
{
    let mut s = String::from_str(a);
    push_decimal(&mut s, n);
    s.append(b);
    s
}

/// The decimal form of `n`, then `b`.
fn number_then(n: u64, b: &str) -> (s: String)
    ensures
        s@ == decimal_digits(n as nat) + b@,
{
    let mut s = String::new();
    push_decimal(&mut s, n);
    s.append(b);
    assert(s@ =~= decimal_digits(n as nat) + b@);
    s
}

/// `a`, `v / scale` with no decimals, then `b`.
fn text_whole(a: &str, v: i64, scale: u64, b: &str) -> (s: String)
    requires
        scale > 0,
    ensures
        s@ == a@ + whole_text(v as int, scale as nat) + b@,
{
    let mut s = String::from_str(a);
    push_fixed_whole(&mut s, v, scale);
    s.append(b);
    s
}

fn io_pressure_check(m: &Metrics, t: &Thresholds) -> (r: Option<Recommendation>)
    ensures
        opt_recs(r) == io_pressure_recs(*m, *t),
{
    match m.io_pressure_some_avg10 {
        None => None,
        Some(io) => {
            let severity = t.io_pressure_severity(io);
            if severity == Severity::Critical {
                Some(
                    make(
                        severity,
                        "High I/O Pressure",
                        String::from_str("Check: iotop, iostat -x 1, dmesg for disk errors"),
                    ),
                )
            } else if severity == Severity::Warning {
                Some(
                    make(
                        severity,
                        "Elevated I/O Pressure",
                        String::from_str("Monitor: iotop -o to identify I/O-heavy processes"),
                    ),
                )
            } else {
                None
            }
        },
    }
}

fn mem_pressure_check(m: &Metrics, t: &Thresholds) -> (r: Option<Recommendation>)
    ensures
        opt_recs(r) == mem_pressure_recs(*m, *t),
{
    match m.mem_pressure_some_avg10 {
        None => None,
        Some(mem) => {
            let severity = t.mem_pressure_severity(mem);
            if severity == Severity::Critical {
                Some(
                    make(
                        severity,
                        "High Memory Pressure",
                        String::from_str("Check: ps aux --sort=-%mem | head, consider adding RAM"),
                    ),
                )
            } else if severity == Severity::Warning {
                Some(
                    make(
                        severity,
                        "Memory Pressure Detected",
                        String::from_str("Monitor: free -h, check for memory-hungry processes"),
                    ),
                )
            } else {
                None
            }
        },
    }
}

fn swap_check(m: &Metrics) -> (r: Option<Recommendation>)
    ensures
        opt_recs(r) == swap_recs(*m),
{
    if m.pswpin > 0 || m.pswpout > 0 {
        let mut advice = text_number("Swapping in:", m.pswpin, " out:");
        push_decimal(&mut advice, m.pswpout);
        advice.append(". Check: ps aux --sort=-%mem");
        Some(make(Severity::Warning, "Swap Activity", advice))
    } else {
        None
    }
}

fn low_memory_check(m: &Metrics, t: &Thresholds) -> (r: Option<Recommendation>)
    ensures
        opt_recs(r) == low_memory_recs(*m, *t),
{
    let severity = t.memory_available_severity(m.mem_available_mb);
    if severity == Severity::Critical {
        Some(
            make(
                Severity::Critical,
                "Critically Low Memory",
                text_number(
                    "Only ",
                    m.mem_available_mb,
                    " MB available. Kill processes or add RAM immediately",
                ),
            ),
        )
    } else if severity == Severity::Warning {
        Some(
            make(
                Severity::Warning,
                "Low Available Memory",
                number_then(m.mem_available_mb, " MB available. Monitor memory usage closely"),
            ),
        )
    } else {
        None
    }
}

fn cpu_temp_check(m: &Metrics, t: &Thresholds) -> (r: Option<Recommendation>)
    ensures
        opt_recs(r) == cpu_temp_recs(*m, *t),
{
    match m.cpu_temp_millicelsius {
        None => None,
        Some(temp) => {
            let severity = t.cpu_temp_severity(temp);
            if severity == Severity::Critical {
                Some(
                    make(
                        severity,
                        "CPU Overheating",
                        text_whole(
                            "CPU at ",
                            temp,
                            1000,
                            "C. Check cooling, clean dust, verify thermal paste",
                        ),
                    ),
                )
            } else if severity == Severity::Warning {
                Some(
                    make(
                        severity,
                        "CPU Running Hot",
                        text_whole("CPU at ", temp, 1000, "C. Consider improving cooling"),
                    ),
                )
            } else {
                None
            }
        },
    }
}

fn dimm_temp_check(m: &Metrics, t: &Thresholds) -> (r: Option<Recommendation>)
    ensures
        opt_recs(r) == dimm_temp_recs(*m, *t),
{
    match m.dimm_temp_max {
        None => None,
        Some(temp) => {
            let severity = t.dimm_temp_severity(temp);
            if severity == Severity::Critical {
                Some(
                    make(
                        severity,
                        "RAM Overheating",
                        text_whole(
                            "DIMM at ",
                            temp,
                            1000,
                            "C. Check case airflow, consider RAM cooling",
                        ),
                    ),
                )
            } else if severity == Severity::Warning {
                Some(
                    make(
                        severity,
                        "RAM Running Warm",
                        text_whole("DIMM at ", temp, 1000, "C. Ensure adequate airflow"),
                    ),
                )
            } else {
                None
            }
        },
    }
}

fn disk_temp_check(m: &Metrics, t: &Thresholds) -> (r: Option<Recommendation>)
    ensures
        opt_recs(r) == disk_temp_recs(*m, *t),
{
    match m.disk_temp_max {
        None => None,
        Some(temp) => {
            let severity = t.disk_temp_severity(temp);
            if severity == Severity::Critical {
                Some(
                    make(
                        severity,
                        "Disk Overheating",
                        text_whole("Disk at ", temp, 1000, "C. Check cooling, may cause data loss"),
                    ),
                )
            } else if severity == Severity::Warning {
                Some(
                    make(
                        severity,
                        "Disk Running Hot",
                        text_whole("Disk at ", temp, 1000, "C. Consider better cooling"),
                    ),
                )
            } else {
                None
            }
        },
    }
}

fn iowait_check(m: &Metrics, t: &Thresholds) -> (r: Option<Recommendation>)
    requires
        cpu_total_fits(*m),
    ensures
        opt_recs(r) == iowait_recs(*m, *t),
{
    let total = m.cpu_user + m.cpu_system + m.cpu_idle + m.cpu_iowait;
    if total == 0 {
        return None;
    }
    let iowait = m.cpu_iowait as u128;
    let wide_total = total as u128;
    let num = 10000 * iowait;
    let num100 = 100 * iowait;
    assert(num / wide_total <= 10000) by (nonlinear_arith)
        requires
            num == 10000 * iowait,
            iowait <= wide_total,
            wide_total > 0,
    {
        assert(num <= 10000 * wide_total);
    }
    assert(num100 / wide_total <= 100) by (nonlinear_arith)
        requires
            num100 == 100 * iowait,
            iowait <= wide_total,
            wide_total > 0,
    {
        assert(num100 <= 100 * wide_total);
    }
    let pct = (num / wide_total) as i64;
    let shown = round_ratio(num100, wide_total);
    assert(shown <= 101) by {
        assert(round_half_even(num100 as nat, wide_total as nat) <= num100 as nat / wide_total as nat + 1);
    }
    let severity = t.iowait_severity(pct);
    if severity == Severity::Critical {
        Some(
            make(
                severity,
                "Severe I/O Wait",
                number_then(shown as u64, "% CPU waiting for I/O. Disk is severe bottleneck"),
            ),
        )
    } else if severity == Severity::Warning {
        Some(
            make(
                severity,
                "High I/O Wait",
                number_then(shown as u64, "% CPU waiting for I/O. Disk may be bottleneck"),
            ),
        )
    } else {
        None
    }
}

fn cpu_usage_check(m: &Metrics, t: &Thresholds) -> (r: Option<Recommendation>)
    ensures
        opt_recs(r) == cpu_usage_recs(*m, *t),
{
    let severity = t.cpu_usage_severity(m.cpu_usage_percent);
    if severity == Severity::Warning {
        Some(
            make(
                Severity::Warning,
                "High CPU Usage",
                text_whole(
                    "CPU at ",
                    m.cpu_usage_percent,
                    100,
                    "%. Check: top, htop for CPU-intensive processes",
                ),
            ),
        )
    } else {
        None
    }
}

fn major_fault_check(m: &Metrics) -> (r: Option<Recommendation>)
    ensures
        opt_recs(r) == major_fault_recs(*m),
{
    if m.pgmajfault > 100 {
        Some(
            make(
                Severity::Warning,
                "High Major Faults",
                number_then(
                    m.pgmajfault,
                    " major faults. System may be thrashing. Add RAM or reduce load",
                ),
            ),
        )
    } else {
        None
    }
}

fn dirty_check(m: &Metrics) -> (r: Option<Recommendation>)
    ensures
        opt_recs(r) == dirty_recs(*m),
{
    if m.dirty_mb > 1024 {
        Some(
            make(
                Severity::Warning,
                "High Dirty Pages",
                number_then(m.dirty_mb, " MB waiting to be written. I/O may be backed up"),
            ),
        )
    } else {
        None
    }
}

fn ipmi_check(m: &Metrics) -> (r: Option<Recommendation>)
    ensures
        opt_recs(r) == ipmi_recs(*m),
{
    match &m.ipmi_dimm_status {
        None => None,
        Some(status) => {
            let details: &str = match &m.ipmi_dimm_details {
                Some(d) => d.as_str(),
                None => "Check: sudo ipmitool sensor list | grep -i dimm",
            };
            if str_is(status.as_str(), "nr") {
                let mut advice = String::from_str(details);
                advice.append(". Check BMC logs: sudo ipmitool sel list");
                Some(make(Severity::Critical, "DIMM NON-RECOVERABLE", advice))
            } else if str_is(status.as_str(), "cr") {
                let mut advice = String::from_str(details);
                advice.append(". Check cooling immediately");
                Some(make(Severity::Critical, "DIMM CRITICAL", advice))
            } else if str_is(status.as_str(), "nc") {
                let mut advice = String::from_str(details);
                advice.append(". Monitor closely");
                Some(make(Severity::Warning, "DIMM Warning", advice))
            } else {
                None
            }
        },
    }
}

fn push_opt(recs: &mut Vec<Recommendation>, r: Option<Recommendation>)
    ensures
        rec_views(final(recs)@) == rec_views(old(recs)@) + opt_recs(r),
{
    let ghost before = recs@;
    match r {
        Some(r) => {
            recs.push(r);
            assert(rec_views(recs@) =~= rec_views(before) + opt_recs(Some(r)));
        },
        None => {
            assert(rec_views(recs@) =~= rec_views(before) + opt_recs(None));
        },
    }
}

/// Generate recommendations based on current metrics, most urgent first.
pub fn generate_recommendations(metrics: &Metrics, thresholds: &Thresholds) -> (r: Vec<
    Recommendation,
>)
    requires
        cpu_total_fits(*metrics),
    ensures
        rec_views(r@) == by_severity(candidates(*metrics, *thresholds)),
{
    let m = metrics;
    let t = thresholds;
    let mut recs: Vec<Recommendation> = Vec::new();
    assert(rec_views(recs@) =~= Seq::<RecommendationView>::empty());
    push_opt(&mut recs, io_pressure_check(m, t));
    push_opt(&mut recs, mem_pressure_check(m, t));
    push_opt(&mut recs, swap_check(m));
    push_opt(&mut recs, low_memory_check(m, t));
    push_opt(&mut recs, cpu_temp_check(m, t));
    push_opt(&mut recs, dimm_temp_check(m, t));
    push_opt(&mut recs, disk_temp_check(m, t));
    push_opt(&mut recs, iowait_check(m, t));
    push_opt(&mut recs, cpu_usage_check(m, t));
    push_opt(&mut recs, major_fault_check(m));
    push_opt(&mut recs, dirty_check(m));
    push_opt(&mut recs, ipmi_check(m));
    assert(rec_views(recs@) =~= candidates(*m, *t));
    sort_by_severity(recs)
}


/// The start of the uninterrupted uptime run that ends at sample `i`: walking
/// back while uptime does not decrease going forward in time. A drop in
/// uptime marks a reboot.
pub open spec fn run_start(h: Seq<Metrics>, i: int) -> int
    decreases i,
{
    if i <= 0 {
        0
    } else if h[i - 1].uptime_centisecs <= h[i].uptime_centisecs {
        run_start(h, i - 1)
    } else {
        i
    }
}

/// The advice that follows the number of unexpected unsafe shutdowns.
pub open spec fn nvme_reset_advice_tail() -> Seq<char> {
    " unsafe shutdown(s) with no reboot: controller reset itself. Check: dmesg | grep -i nvme. Try nvme_core.default_ps_max_latency_us=0 (APST), then firmware update; RMA if it recurs"@
}

/// The NVMe reset warning for the history `h` (oldest sample first): the
/// unsafe shutdown counter of the latest sample exceeds the one at the start
/// of the current uptime run.
pub open spec fn unsafe_shutdown_rec(h: Seq<Metrics>) -> Option<RecommendationView> {
    if h.len() == 0 {
        None
    } else {
        let last = h.len() - 1;
        match h[last].smart_unsafe_shutdowns_total {
            None => None,
            Some(current) => match h[run_start(h, last)].smart_unsafe_shutdowns_total {
                None => None,
                Some(baseline) => if current > baseline {
                    Some(
                        RecommendationView {
                            severity: Severity::Warning,
                            title: "NVMe Reset Detected"@,
                            advice: decimal_digits((current - baseline) as nat)
                                + nvme_reset_advice_tail(),
                        },
                    )
                } else {
                    None
                },
            },
        }
    }
}

pub proof fn lemma_run_start_bounds(h: Seq<Metrics>, i: int)
    requires
        0 <= i < h.len(),
    ensures
        0 <= run_start(h, i) <= i,
        forall|k: int|
            run_start(h, i) <= k < i ==> h[k].uptime_centisecs <= #[trigger] h[k + 1].uptime_centisecs,
        run_start(h, i) == 0 || h[run_start(h, i) - 1].uptime_centisecs > h[run_start(
            h,
            i,
        )].uptime_centisecs,
    decreases i,
{
    if i > 0 && h[i - 1].uptime_centisecs <= h[i].uptime_centisecs {
        lemma_run_start_bounds(h, i - 1);
    }
}

/// Flag NVMe unsafe shutdowns that accumulate without a reboot.
///
/// The `unsafe_shutdowns` counter rises on any ungraceful power loss,
/// including a legitimate reboot or yanked cable. The failure signature worth
/// flagging is the counter climbing while the host stays up, which means the
/// drive controller reset itself on the bus. To avoid false positives, the
/// baseline is taken from the start of the current uninterrupted uptime run:
/// any increment that coincides with a reboot (uptime resetting) is excluded.
pub fn unsafe_shutdown_recommendation(history: &VecDeque<Metrics>) -> (r: Option<Recommendation>)
    ensures
        match r {
            Some(rec) => unsafe_shutdown_rec(history@) == Some(rec@),
            None => unsafe_shutdown_rec(history@) is None,
        },
{
    let n = history.len();
    if n == 0 {
        return None;
    }
    let current = match history[n - 1].smart_unsafe_shutdowns_total {
        Some(c) => c,
        None => {
            return None;
        },
    };
    let mut baseline_idx = n - 1;
    while baseline_idx > 0 && history[baseline_idx - 1].uptime_centisecs
        <= history[baseline_idx].uptime_centisecs
        invariant
            n == history@.len(),
            baseline_idx < n,
            run_start(history@, n - 1) == run_start(history@, baseline_idx as int),
        decreases baseline_idx,
    {
        baseline_idx = baseline_idx - 1;
    }
    let baseline = match history[baseline_idx].smart_unsafe_shutdowns_total {
        Some(b) => b,
        None => {
            return None;
        },
    };
    if current <= baseline {
        return None;
    }
    let advice = number_then(
        current - baseline,
        " unsafe shutdown(s) with no reboot: controller reset itself. Check: dmesg | grep -i nvme. Try nvme_core.default_ps_max_latency_us=0 (APST), then firmware update; RMA if it recurs",
    );
    Some(make(Severity::Warning, "NVMe Reset Detected", advice))
}

/// Build the full recommendation list from metric history (oldest sample
/// first).
///
/// This combines the single-snapshot checks of [`generate_recommendations`]
/// on the latest sample with history-aware checks that need more than one
/// sample, such as detecting a rising NVMe unsafe-shutdown counter.
pub fn build_recommendations(history: &VecDeque<Metrics>, thresholds: &Thresholds) -> (r: Vec<
    Recommendation,
>)
    requires
        history@.len() > 0 ==> cpu_total_fits(history@.last()),
    ensures
        history@.len() == 0 ==> r@.len() == 0,
        history@.len() > 0 ==> rec_views(r@) == by_severity(
            candidates(history@.last(), *thresholds) + match unsafe_shutdown_rec(history@) {
                Some(u) => seq![u],
                None => seq![],
            },
        ),
{
    let n = history.len();
    if n == 0 {
        return Vec::new();
    }
    let latest = &history[n - 1];
    let recs = generate_recommendations(latest, thresholds);
    let ghost c = candidates(history@.last(), *thresholds);
    match unsafe_shutdown_recommendation(history) {
        Some(rec) => {
            let mut recs = recs;
            let ghost before = recs@;
            recs.push(rec);
            assert(rec_views(recs@) =~= rec_views(before) + seq![rec@]);
            let sorted = sort_by_severity(recs);
            proof {
                lemma_resort(c, seq![rec@]);
            }
            sorted
        },
        None => {
            assert(c + seq![] =~= c);
            recs
        },
    }
}

/// Selecting a severity distributes over concatenation.
pub proof fn lemma_with_severity_add(a: Seq<RecommendationView>, b: Seq<RecommendationView>, sev: Severity)
    ensures
        with_severity(a + b, sev) == with_severity(a, sev) + with_severity(b, sev),
    decreases b.len(),
{
    if b.len() == 0 {
        assert(a + b =~= a);
        assert(with_severity(a, sev) + with_severity(b, sev) =~= with_severity(a, sev));
    } else {
        assert((a + b).drop_last() =~= a + b.drop_last());
        assert((a + b).last() == b.last());
        lemma_with_severity_add(a, b.drop_last(), sev);
        if b.last().severity == sev {
            assert(with_severity(a, sev) + with_severity(b, sev) =~= (with_severity(a, sev)
                + with_severity(b.drop_last(), sev)).push(b.last()));
        }
    }
}

/// Selecting a severity from a selection keeps it when the severities agree
/// and leaves nothing when they differ.
pub proof fn lemma_with_severity_twice(s: Seq<RecommendationView>, v: Severity, u: Severity)
    ensures
        with_severity(with_severity(s, v), u) == (if u == v {
            with_severity(s, v)
        } else {
            seq![]
        }),
    decreases s.len(),
{
    if s.len() > 0 {
        lemma_with_severity_twice(s.drop_last(), v, u);
        let rest = with_severity(s.drop_last(), v);
        if s.last().severity == v {
            assert(rest.push(s.last()).drop_last() =~= rest);
            assert(rest.push(s.last()).last() == s.last());
        }
    }
}

/// Every recommendation in a selection has the selected severity.
pub proof fn lemma_with_severity_all(s: Seq<RecommendationView>, v: Severity)
    ensures
        forall|i: int| 0 <= i < with_severity(s, v).len() ==> (#[trigger] with_severity(s, v)[i]).severity == v,
        with_severity(s, v).len() <= s.len(),
    decreases s.len(),
{
    if s.len() > 0 {
        lemma_with_severity_all(s.drop_last(), v);
    }
}

/// The three severities together hold every recommendation.
pub proof fn lemma_with_severity_len(s: Seq<RecommendationView>)
    ensures
        with_severity(s, Severity::Critical).len() + with_severity(s, Severity::Warning).len()
            + with_severity(s, Severity::Normal).len() == s.len(),
    decreases s.len(),
{
    if s.len() > 0 {
        lemma_with_severity_len(s.drop_last());
    }
}

/// Ordering by severity is a stable reordering: each severity keeps exactly
/// its recommendations, in their order, and nothing is added or lost.
pub proof fn lemma_by_severity_reorders_only(s: Seq<RecommendationView>)
    ensures
        by_severity(s).len() == s.len(),
        forall|v: Severity| #[trigger] with_severity(by_severity(s), v) == with_severity(s, v),
{
    lemma_with_severity_len(s);
    let c = with_severity(s, Severity::Critical);
    let w = with_severity(s, Severity::Warning);
    let n = with_severity(s, Severity::Normal);
    assert forall|v: Severity| #[trigger] with_severity(by_severity(s), v) == with_severity(s, v) by {
        lemma_with_severity_add(c + w, n, v);
        lemma_with_severity_add(c, w, v);
        lemma_with_severity_twice(s, Severity::Critical, v);
        lemma_with_severity_twice(s, Severity::Warning, v);
        lemma_with_severity_twice(s, Severity::Normal, v);
        let e: Seq<RecommendationView> = seq![];
        assert(e + with_severity(s, v) =~= with_severity(s, v));
        assert(with_severity(s, v) + e =~= with_severity(s, v));
        assert(e + e =~= e);
    }
}

/// Recommendations come most urgent first: critical ones before warnings,
/// warnings before the rest.
pub proof fn lemma_by_severity_sorted(s: Seq<RecommendationView>)
    ensures
        forall|i: int, j: int|
            0 <= i < j < by_severity(s).len() ==> crate::thresholds::severity_level(
                #[trigger] by_severity(s)[i].severity,
            ) >= crate::thresholds::severity_level(#[trigger] by_severity(s)[j].severity),
{
    lemma_with_severity_all(s, Severity::Critical);
    lemma_with_severity_all(s, Severity::Warning);
    lemma_with_severity_all(s, Severity::Normal);
    let c = with_severity(s, Severity::Critical);
    let w = with_severity(s, Severity::Warning);
    let n = with_severity(s, Severity::Normal);
    assert forall|i: int| 0 <= i < by_severity(s).len() implies #[trigger] by_severity(s)[i].severity
        == (if i < c.len() {
        Severity::Critical
    } else if i < c.len() + w.len() {
        Severity::Warning
    } else {
        Severity::Normal
    }) by {
        if i < c.len() {
            assert(by_severity(s)[i] == c[i]);
        } else if i < c.len() + w.len() {
            assert(by_severity(s)[i] == w[i - c.len()]);
        } else {
            assert(by_severity(s)[i] == n[i - c.len() - w.len()]);
        }
    }
}

/// Ordering an ordered list again after appending to it gives the same
/// result as ordering everything at once.
pub proof fn lemma_resort(a: Seq<RecommendationView>, b: Seq<RecommendationView>)
    ensures
        by_severity(by_severity(a) + b) == by_severity(a + b),
{
    lemma_by_severity_reorders_only(a);
    assert forall|v: Severity| #[trigger] with_severity(by_severity(a) + b, v) == with_severity(a + b, v) by {
        lemma_with_severity_add(by_severity(a), b, v);
        lemma_with_severity_add(a, b, v);
    }
    assert(with_severity(by_severity(a) + b, Severity::Critical) == with_severity(a + b, Severity::Critical));
    assert(with_severity(by_severity(a) + b, Severity::Warning) == with_severity(a + b, Severity::Warning));
    assert(with_severity(by_severity(a) + b, Severity::Normal) == with_severity(a + b, Severity::Normal));
}

proof fn lemma_part_urgent(p: Seq<RecommendationView>)
    requires
        p.len() <= 1,
        p.len() == 1 ==> p[0].severity != Severity::Normal,
    ensures
        with_severity(p, Severity::Normal) == Seq::<RecommendationView>::empty(),
{
    if p.len() == 1 {
        assert(p.drop_last() =~= Seq::<RecommendationView>::empty());
        assert(with_severity(p.drop_last(), Severity::Normal) =~= Seq::<RecommendationView>::empty());
    }
    assert(with_severity(p, Severity::Normal) =~= Seq::<RecommendationView>::empty());
}

proof fn lemma_join_urgent(a: Seq<RecommendationView>, b: Seq<RecommendationView>)
    requires
        with_severity(a, Severity::Normal) == Seq::<RecommendationView>::empty(),
        with_severity(b, Severity::Normal) == Seq::<RecommendationView>::empty(),
    ensures
        with_severity(a + b, Severity::Normal) == Seq::<RecommendationView>::empty(),
{
    lemma_with_severity_add(a, b, Severity::Normal);
    assert(Seq::<RecommendationView>::empty() + Seq::<RecommendationView>::empty()
        =~= Seq::<RecommendationView>::empty());
}

/// No check recommends anything at `Normal` severity: every recommendation
/// is a warning or critical.
pub proof fn lemma_candidates_are_urgent(m: Metrics, t: Thresholds)
    ensures
        with_severity(candidates(m, t), Severity::Normal) == Seq::<RecommendationView>::empty(),
{
    lemma_part_urgent(io_pressure_recs(m, t));
    lemma_part_urgent(mem_pressure_recs(m, t));
    lemma_part_urgent(swap_recs(m));
    lemma_part_urgent(low_memory_recs(m, t));
    lemma_part_urgent(cpu_temp_recs(m, t));
    lemma_part_urgent(dimm_temp_recs(m, t));
    lemma_part_urgent(disk_temp_recs(m, t));
    lemma_part_urgent(iowait_recs(m, t));
    lemma_part_urgent(cpu_usage_recs(m, t));
    lemma_part_urgent(major_fault_recs(m));
    lemma_part_urgent(dirty_recs(m));
    lemma_part_urgent(ipmi_recs(m));
    let s1 = io_pressure_recs(m, t) + mem_pressure_recs(m, t);
    lemma_join_urgent(io_pressure_recs(m, t), mem_pressure_recs(m, t));
    let s2 = s1 + swap_recs(m);
    lemma_join_urgent(s1, swap_recs(m));
    let s3 = s2 + low_memory_recs(m, t);
    lemma_join_urgent(s2, low_memory_recs(m, t));
    let s4 = s3 + cpu_temp_recs(m, t);
    lemma_join_urgent(s3, cpu_temp_recs(m, t));
    let s5 = s4 + dimm_temp_recs(m, t);
    lemma_join_urgent(s4, dimm_temp_recs(m, t));
    let s6 = s5 + disk_temp_recs(m, t);
    lemma_join_urgent(s5, disk_temp_recs(m, t));
    let s7 = s6 + iowait_recs(m, t);
    lemma_join_urgent(s6, iowait_recs(m, t));
    let s8 = s7 + cpu_usage_recs(m, t);
    lemma_join_urgent(s7, cpu_usage_recs(m, t));
    let s9 = s8 + major_fault_recs(m);
    lemma_join_urgent(s8, major_fault_recs(m));
    let s10 = s9 + dirty_recs(m);
    lemma_join_urgent(s9, dirty_recs(m));
    lemma_join_urgent(s10, ipmi_recs(m));
}

/// A reboot right before the latest sample (uptime dropped) explains any rise
/// of the counter: no NVMe reset is reported.
pub proof fn lemma_reboot_explains_unsafe_shutdowns(h: Seq<Metrics>)
    requires
        h.len() >= 2,
        h[h.len() - 1].uptime_centisecs < h[h.len() - 2].uptime_centisecs,
    ensures
        unsafe_shutdown_rec(h) is None,
{
}

/// The NVMe reset warning needs the counter to rise: when no earlier sample
/// reported a smaller count than the latest one, nothing is reported.
pub proof fn lemma_flat_counter_is_quiet(h: Seq<Metrics>)
    requires
        h.len() > 0,
        forall|k: int|
            0 <= k < h.len() ==> match (#[trigger] h[k]).smart_unsafe_shutdowns_total {
                Some(c) => match h[h.len() - 1].smart_unsafe_shutdowns_total {
                    Some(latest) => c >= latest,
                    None => true,
                },
                None => true,
            },
    ensures
        unsafe_shutdown_rec(h) is None,
{
    lemma_run_start_bounds(h, h.len() - 1);
    let b = run_start(h, h.len() - 1);
    assert(h[b].smart_unsafe_shutdowns_total == h[b].smart_unsafe_shutdowns_total);
}

/// When a reset is reported, the samples from the baseline to the latest one
/// lie within one uptime run (no reboot between them), the counter rose by
/// the reported amount, and the advice opens with that amount.
pub proof fn lemma_reported_reset_without_reboot(h: Seq<Metrics>)
    requires
        unsafe_shutdown_rec(h) is Some,
    ensures
        ({
            let last = h.len() - 1;
            let b = run_start(h, last);
            &&& 0 <= b <= last
            &&& forall|k: int|
                b <= k < last ==> h[k].uptime_centisecs <= #[trigger] h[k + 1].uptime_centisecs
            &&& h[last].smart_unsafe_shutdowns_total matches Some(current)
            &&& h[b].smart_unsafe_shutdowns_total matches Some(baseline)
            &&& current > baseline
            &&& unsafe_shutdown_rec(h).unwrap().advice == decimal_digits((current - baseline) as nat)
                + nvme_reset_advice_tail()
            &&& unsafe_shutdown_rec(h).unwrap().severity == Severity::Warning
        }),
{
    lemma_run_start_bounds(h, h.len() - 1);
}


/// The number of recommendations of `s` titled `title`.
pub open spec fn title_count(s: Seq<RecommendationView>, title: Seq<char>) -> nat
    decreases s.len(),
{
    if s.len() == 0 {
        0
    } else {
        title_count(s.drop_last(), title) + if s.last().title == title {
            1nat
        } else {
            0nat
        }
    }
}

/// Every recommendation of `s` titled `title` is `x`.
pub open spec fn titled_as(s: Seq<RecommendationView>, title: Seq<char>, x: RecommendationView) -> bool {
    forall|i: int| 0 <= i < s.len() && (#[trigger] s[i]).title == title ==> s[i] == x
}

proof fn lemma_title_count_add(a: Seq<RecommendationView>, b: Seq<RecommendationView>, title: Seq<char>)
    ensures
        title_count(a + b, title) == title_count(a, title) + title_count(b, title),
    decreases b.len(),
{
    if b.len() == 0 {
        assert(a + b =~= a);
    } else {
        assert((a + b).drop_last() =~= a + b.drop_last());
        assert((a + b).last() == b.last());
        lemma_title_count_add(a, b.drop_last(), title);
    }
}

proof fn lemma_title_count_by_class(s: Seq<RecommendationView>, title: Seq<char>)
    ensures
        title_count(s, title) == title_count(with_severity(s, Severity::Critical), title)
            + title_count(with_severity(s, Severity::Warning), title) + title_count(
            with_severity(s, Severity::Normal),
            title,
        ),
    decreases s.len(),
{
    if s.len() > 0 {
        lemma_title_count_by_class(s.drop_last(), title);
        let v = s.last().severity;
        let rest = with_severity(s.drop_last(), v);
        assert(rest.push(s.last()).drop_last() =~= rest);
    }
}

proof fn lemma_with_severity_from(s: Seq<RecommendationView>, v: Severity)
    ensures
        forall|i: int|
            0 <= i < with_severity(s, v).len() ==> s.contains(#[trigger] with_severity(s, v)[i]),
    decreases s.len(),
{
    if s.len() > 0 {
        lemma_with_severity_from(s.drop_last(), v);
        let rest = with_severity(s.drop_last(), v);
        assert forall|i: int|
            0 <= i < with_severity(s, v).len() implies s.contains(#[trigger] with_severity(s, v)[i]) by {
            if i < rest.len() {
                assert(with_severity(s, v)[i] == rest[i]);
                let j = choose|j: int| 0 <= j < s.drop_last().len() && s.drop_last()[j] == rest[i];
                assert(s[j] == rest[i]);
            } else {
                assert(s[s.len() - 1] == with_severity(s, v)[i]);
            }
        }
    }
}

/// Ordering by severity keeps how often each title occurs, and what the
/// recommendations of a title are.
pub proof fn lemma_by_severity_keeps_titles(s: Seq<RecommendationView>, title: Seq<char>, x: RecommendationView)
    ensures
        title_count(by_severity(s), title) == title_count(s, title),
        titled_as(s, title, x) ==> titled_as(by_severity(s), title, x),
{
    let c = with_severity(s, Severity::Critical);
    let w = with_severity(s, Severity::Warning);
    let n = with_severity(s, Severity::Normal);
    lemma_title_count_add(c + w, n, title);
    lemma_title_count_add(c, w, title);
    lemma_title_count_by_class(s, title);
    lemma_with_severity_from(s, Severity::Critical);
    lemma_with_severity_from(s, Severity::Warning);
    lemma_with_severity_from(s, Severity::Normal);
    if titled_as(s, title, x) {
        let r = by_severity(s);
        assert forall|i: int| 0 <= i < r.len() && (#[trigger] r[i]).title == title implies r[i] == x by {
            if i < c.len() {
                assert(r[i] == c[i]);
                assert(s.contains(c[i]));
            } else if i < c.len() + w.len() {
                assert(r[i] == w[i - c.len()]);
                assert(s.contains(w[i - c.len()]));
            } else {
                assert(r[i] == n[i - c.len() - w.len()]);
                assert(s.contains(n[i - c.len() - w.len()]));
            }
        }
    }
}

proof fn lemma_part_title(p: Seq<RecommendationView>, title: Seq<char>, x: RecommendationView)
    requires
        p.len() <= 1,
    ensures
        title_count(p, title) == (if p.len() == 1 && p[0].title == title {
            1nat
        } else {
            0nat
        }),
        (p.len() == 0 || p[0].title != title || p[0] == x) ==> titled_as(p, title, x),
{
    if p.len() == 1 {
        assert(p.drop_last() =~= Seq::<RecommendationView>::empty());
        assert(title_count(p.drop_last(), title) == 0);
    } else {
        assert(title_count(p, title) == 0);
    }
}

proof fn lemma_join_title(
    a: Seq<RecommendationView>,
    b: Seq<RecommendationView>,
    title: Seq<char>,
    x: RecommendationView,
)
    ensures
        title_count(a + b, title) == title_count(a, title) + title_count(b, title),
        titled_as(a, title, x) && titled_as(b, title, x) ==> titled_as(a + b, title, x),
{
    lemma_title_count_add(a, b, title);
    if titled_as(a, title, x) && titled_as(b, title, x) {
        assert forall|i: int| 0 <= i < (a + b).len() && (#[trigger] (a + b)[i]).title == title implies (a
            + b)[i] == x by {
            if i < a.len() {
                assert((a + b)[i] == a[i]);
            } else {
                assert((a + b)[i] == b[i - a.len()]);
            }
        }
    }
}

/// How often `title` occurs among the candidates, part by part, and that the
/// candidates titled so are `x` when every part's are.
proof fn lemma_candidates_title(m: Metrics, t: Thresholds, title: Seq<char>, x: RecommendationView)
    ensures
        title_count(candidates(m, t), title) == title_count(io_pressure_recs(m, t), title)
            + title_count(mem_pressure_recs(m, t), title) + title_count(swap_recs(m), title)
            + title_count(low_memory_recs(m, t), title) + title_count(cpu_temp_recs(m, t), title)
            + title_count(dimm_temp_recs(m, t), title) + title_count(disk_temp_recs(m, t), title)
            + title_count(iowait_recs(m, t), title) + title_count(cpu_usage_recs(m, t), title)
            + title_count(major_fault_recs(m), title) + title_count(dirty_recs(m), title)
            + title_count(ipmi_recs(m), title),
        titled_as(io_pressure_recs(m, t), title, x) && titled_as(mem_pressure_recs(m, t), title, x)
            && titled_as(swap_recs(m), title, x) && titled_as(low_memory_recs(m, t), title, x)
            && titled_as(cpu_temp_recs(m, t), title, x) && titled_as(dimm_temp_recs(m, t), title, x)
            && titled_as(disk_temp_recs(m, t), title, x) && titled_as(iowait_recs(m, t), title, x)
            && titled_as(cpu_usage_recs(m, t), title, x) && titled_as(major_fault_recs(m), title, x)
            && titled_as(dirty_recs(m), title, x) && titled_as(ipmi_recs(m), title, x)
            ==> titled_as(candidates(m, t), title, x),
{
    let s1 = io_pressure_recs(m, t) + mem_pressure_recs(m, t);
    lemma_join_title(io_pressure_recs(m, t), mem_pressure_recs(m, t), title, x);
    let s2 = s1 + swap_recs(m);
    lemma_join_title(s1, swap_recs(m), title, x);
    let s3 = s2 + low_memory_recs(m, t);
    lemma_join_title(s2, low_memory_recs(m, t), title, x);
    let s4 = s3 + cpu_temp_recs(m, t);
    lemma_join_title(s3, cpu_temp_recs(m, t), title, x);
    let s5 = s4 + dimm_temp_recs(m, t);
    lemma_join_title(s4, dimm_temp_recs(m, t), title, x);
    let s6 = s5 + disk_temp_recs(m, t);
    lemma_join_title(s5, disk_temp_recs(m, t), title, x);
    let s7 = s6 + iowait_recs(m, t);
    lemma_join_title(s6, iowait_recs(m, t), title, x);
    let s8 = s7 + cpu_usage_recs(m, t);
    lemma_join_title(s7, cpu_usage_recs(m, t), title, x);
    let s9 = s8 + major_fault_recs(m);
    lemma_join_title(s8, major_fault_recs(m), title, x);
    let s10 = s9 + dirty_recs(m);
    lemma_join_title(s9, dirty_recs(m), title, x);
    lemma_join_title(s10, ipmi_recs(m), title, x);
}


/// The title each candidate part can carry.
proof fn lemma_part_titles(m: Metrics, t: Thresholds)
    ensures
        io_pressure_recs(m, t).len() <= 1,
        io_pressure_recs(m, t).len() == 1 ==> (io_pressure_recs(m, t)[0].title == "High I/O Pressure"@ || io_pressure_recs(m, t)[0].title == "Elevated I/O Pressure"@),
        mem_pressure_recs(m, t).len() <= 1,
        mem_pressure_recs(m, t).len() == 1 ==> (mem_pressure_recs(m, t)[0].title == "High Memory Pressure"@ || mem_pressure_recs(m, t)[0].title == "Memory Pressure Detected"@),
        swap_recs(m).len() <= 1,
        swap_recs(m).len() == 1 ==> (swap_recs(m)[0].title == "Swap Activity"@),
        low_memory_recs(m, t).len() <= 1,
        low_memory_recs(m, t).len() == 1 ==> (low_memory_recs(m, t)[0].title == "Critically Low Memory"@ || low_memory_recs(m, t)[0].title == "Low Available Memory"@),
        cpu_temp_recs(m, t).len() <= 1,
        cpu_temp_recs(m, t).len() == 1 ==> (cpu_temp_recs(m, t)[0].title == "CPU Overheating"@ || cpu_temp_recs(m, t)[0].title == "CPU Running Hot"@),
        dimm_temp_recs(m, t).len() <= 1,
        dimm_temp_recs(m, t).len() == 1 ==> (dimm_temp_recs(m, t)[0].title == "RAM Overheating"@ || dimm_temp_recs(m, t)[0].title == "RAM Running Warm"@),
        disk_temp_recs(m, t).len() <= 1,
        disk_temp_recs(m, t).len() == 1 ==> (disk_temp_recs(m, t)[0].title == "Disk Overheating"@ || disk_temp_recs(m, t)[0].title == "Disk Running Hot"@),
        iowait_recs(m, t).len() <= 1,
        iowait_recs(m, t).len() == 1 ==> (iowait_recs(m, t)[0].title == "Severe I/O Wait"@ || iowait_recs(m, t)[0].title == "High I/O Wait"@),
        cpu_usage_recs(m, t).len() <= 1,
        cpu_usage_recs(m, t).len() == 1 ==> (cpu_usage_recs(m, t)[0].title == "High CPU Usage"@),
        major_fault_recs(m).len() <= 1,
        major_fault_recs(m).len() == 1 ==> (major_fault_recs(m)[0].title == "High Major Faults"@),
        dirty_recs(m).len() <= 1,
        dirty_recs(m).len() == 1 ==> (dirty_recs(m)[0].title == "High Dirty Pages"@),
        ipmi_recs(m).len() <= 1,
        ipmi_recs(m).len() == 1 ==> (ipmi_recs(m)[0].title == "DIMM NON-RECOVERABLE"@ || ipmi_recs(m)[0].title == "DIMM CRITICAL"@ || ipmi_recs(m)[0].title == "DIMM Warning"@),
{
}

/// Length, first and sixth character of a title.
spec fn title_key(title: Seq<char>) -> (nat, char, char) {
    (title.len(), title[0], title[5])
}

/// The key of every title. No two titles share a key, so no two titles are
/// equal.
proof fn lemma_title_keys()
    ensures
        title_key("High I/O Pressure"@) == (17nat, 'H', 'I'),
        title_key("Elevated I/O Pressure"@) == (21nat, 'E', 't'),
        title_key("High Memory Pressure"@) == (20nat, 'H', 'M'),
        title_key("Memory Pressure Detected"@) == (24nat, 'M', 'y'),
        title_key("Swap Activity"@) == (13nat, 'S', 'A'),
        title_key("Critically Low Memory"@) == (21nat, 'C', 'c'),
        title_key("Low Available Memory"@) == (20nat, 'L', 'v'),
        title_key("CPU Overheating"@) == (15nat, 'C', 'v'),
        title_key("CPU Running Hot"@) == (15nat, 'C', 'u'),
        title_key("RAM Overheating"@) == (15nat, 'R', 'v'),
        title_key("RAM Running Warm"@) == (16nat, 'R', 'u'),
        title_key("Disk Overheating"@) == (16nat, 'D', 'O'),
        title_key("Disk Running Hot"@) == (16nat, 'D', 'R'),
        title_key("Severe I/O Wait"@) == (15nat, 'S', 'e'),
        title_key("High I/O Wait"@) == (13nat, 'H', 'I'),
        title_key("High CPU Usage"@) == (14nat, 'H', 'C'),
        title_key("High Major Faults"@) == (17nat, 'H', 'M'),
        title_key("High Dirty Pages"@) == (16nat, 'H', 'D'),
        title_key("DIMM NON-RECOVERABLE"@) == (20nat, 'D', 'N'),
        title_key("DIMM CRITICAL"@) == (13nat, 'D', 'C'),
        title_key("DIMM Warning"@) == (12nat, 'D', 'W'),
{
    reveal_strlit("High I/O Pressure");
    reveal_strlit("Elevated I/O Pressure");
    reveal_strlit("High Memory Pressure");
    reveal_strlit("Memory Pressure Detected");
    reveal_strlit("Swap Activity");
    reveal_strlit("Critically Low Memory");
    reveal_strlit("Low Available Memory");
    reveal_strlit("CPU Overheating");
    reveal_strlit("CPU Running Hot");
    reveal_strlit("RAM Overheating");
    reveal_strlit("RAM Running Warm");
    reveal_strlit("Disk Overheating");
    reveal_strlit("Disk Running Hot");
    reveal_strlit("Severe I/O Wait");
    reveal_strlit("High I/O Wait");
    reveal_strlit("High CPU Usage");
    reveal_strlit("High Major Faults");
    reveal_strlit("High Dirty Pages");
    reveal_strlit("DIMM NON-RECOVERABLE");
    reveal_strlit("DIMM CRITICAL");
    reveal_strlit("DIMM Warning");
}

/// Whether the part `p` (at most one recommendation) is titled `title`.
spec fn part_count(p: Seq<RecommendationView>, title: Seq<char>) -> nat {
    if p.len() == 1 && p[0].title == title {
        1
    } else {
        0
    }
}

/// The part `p` holds no recommendation titled `title` other than `x`.
spec fn part_is(p: Seq<RecommendationView>, title: Seq<char>, x: RecommendationView) -> bool {
    p.len() == 0 || p[0].title != title || p[0] == x
}

/// How often `title` occurs among the ordered recommendations for one sample,
/// part by part, and that those titled so are `x` when each part's are.
proof fn lemma_count_title(m: Metrics, t: Thresholds, title: Seq<char>, x: RecommendationView)
    ensures
        title_count(by_severity(candidates(m, t)), title) == part_count(io_pressure_recs(m, t), title)
            + part_count(mem_pressure_recs(m, t), title)
            + part_count(swap_recs(m), title)
            + part_count(low_memory_recs(m, t), title)
            + part_count(cpu_temp_recs(m, t), title)
            + part_count(dimm_temp_recs(m, t), title)
            + part_count(disk_temp_recs(m, t), title)
            + part_count(iowait_recs(m, t), title)
            + part_count(cpu_usage_recs(m, t), title)
            + part_count(major_fault_recs(m), title)
            + part_count(dirty_recs(m), title)
            + part_count(ipmi_recs(m), title),
        part_is(io_pressure_recs(m, t), title, x)
            && part_is(mem_pressure_recs(m, t), title, x)
            && part_is(swap_recs(m), title, x)
            && part_is(low_memory_recs(m, t), title, x)
            && part_is(cpu_temp_recs(m, t), title, x)
            && part_is(dimm_temp_recs(m, t), title, x)
            && part_is(disk_temp_recs(m, t), title, x)
            && part_is(iowait_recs(m, t), title, x)
            && part_is(cpu_usage_recs(m, t), title, x)
            && part_is(major_fault_recs(m), title, x)
            && part_is(dirty_recs(m), title, x)
            && part_is(ipmi_recs(m), title, x)
            ==> titled_as(by_severity(candidates(m, t)), title, x),
{
    lemma_part_titles(m, t);
    lemma_part_title(io_pressure_recs(m, t), title, x);
    lemma_part_title(mem_pressure_recs(m, t), title, x);
    lemma_part_title(swap_recs(m), title, x);
    lemma_part_title(low_memory_recs(m, t), title, x);
    lemma_part_title(cpu_temp_recs(m, t), title, x);
    lemma_part_title(dimm_temp_recs(m, t), title, x);
    lemma_part_title(disk_temp_recs(m, t), title, x);
    lemma_part_title(iowait_recs(m, t), title, x);
    lemma_part_title(cpu_usage_recs(m, t), title, x);
    lemma_part_title(major_fault_recs(m), title, x);
    lemma_part_title(dirty_recs(m), title, x);
    lemma_part_title(ipmi_recs(m), title, x);
    lemma_candidates_title(m, t, title, x);
    lemma_by_severity_keeps_titles(candidates(m, t), title, x);
}

/// Severity of the I/O pressure reading, when there is one.
pub open spec fn io_pressure_level(m: Metrics, t: Thresholds) -> Option<Severity> {
    match m.io_pressure_some_avg10 {
        Some(v) => Some(high_is_bad(v as int, t.io_pressure_warning as int, t.io_pressure_critical as int)),
        None => None,
    }
}

/// `High I/O Pressure` is recommended once, as a critical issue, exactly
/// when I/O pressure is critical, and never otherwise.
pub proof fn lemma_high_io_pressure_title(m: Metrics, t: Thresholds)
    ensures
        title_count(by_severity(candidates(m, t)), "High I/O Pressure"@) == (if io_pressure_level(m, t)
            == Some(Severity::Critical) {
            1nat
        } else {
            0nat
        }),
        forall|i: int|
            0 <= i < by_severity(candidates(m, t)).len() && (#[trigger] by_severity(
                candidates(m, t),
            )[i]).title == "High I/O Pressure"@ ==> by_severity(candidates(m, t))[i].severity
                == Severity::Critical,
{
    let title = "High I/O Pressure"@;
    let x = RecommendationView {
        severity: Severity::Critical,
        title,
        advice: "Check: iotop, iostat -x 1, dmesg for disk errors"@,
    };
    lemma_title_keys();
    lemma_part_titles(m, t);
    lemma_count_title(m, t, title, x);
}

/// `Elevated I/O Pressure` is recommended once, as a warning, exactly when
/// I/O pressure is at warning level, and never otherwise.
pub proof fn lemma_elevated_io_pressure_title(m: Metrics, t: Thresholds)
    ensures
        title_count(by_severity(candidates(m, t)), "Elevated I/O Pressure"@) == (if io_pressure_level(
            m,
            t,
        ) == Some(Severity::Warning) {
            1nat
        } else {
            0nat
        }),
        forall|i: int|
            0 <= i < by_severity(candidates(m, t)).len() && (#[trigger] by_severity(
                candidates(m, t),
            )[i]).title == "Elevated I/O Pressure"@ ==> by_severity(candidates(m, t))[i].severity
                == Severity::Warning,
{
    let title = "Elevated I/O Pressure"@;
    let x = RecommendationView {
        severity: Severity::Warning,
        title,
        advice: "Monitor: iotop -o to identify I/O-heavy processes"@,
    };
    lemma_title_keys();
    lemma_part_titles(m, t);
    lemma_count_title(m, t, title, x);
}

/// Severity of the available memory.
pub open spec fn memory_level(m: Metrics, t: Thresholds) -> Severity {
    low_is_bad(m.mem_available_mb as int, t.memory_available_warning_mb as int, t.memory_available_critical_mb as int)
}

/// `Critically Low Memory` is recommended once exactly when available memory
/// is critical, as a critical issue that names the megabytes left.
pub proof fn lemma_critically_low_memory_title(m: Metrics, t: Thresholds)
    ensures
        title_count(by_severity(candidates(m, t)), "Critically Low Memory"@) == (if memory_level(m, t)
            == Severity::Critical {
            1nat
        } else {
            0nat
        }),
        forall|i: int|
            0 <= i < by_severity(candidates(m, t)).len() && (#[trigger] by_severity(
                candidates(m, t),
            )[i]).title == "Critically Low Memory"@ ==> by_severity(candidates(m, t))[i].severity
                == Severity::Critical && by_severity(candidates(m, t))[i].advice == "Only "@
                + decimal_digits(m.mem_available_mb as nat)
                + " MB available. Kill processes or add RAM immediately"@,
{
    let title = "Critically Low Memory"@;
    let x = RecommendationView {
        severity: Severity::Critical,
        title,
        advice: "Only "@ + decimal_digits(m.mem_available_mb as nat)
            + " MB available. Kill processes or add RAM immediately"@,
    };
    lemma_title_keys();
    lemma_part_titles(m, t);
    lemma_count_title(m, t, title, x);
}

/// `Low Available Memory` is recommended once exactly when available memory
/// is at warning level, as a warning that names the megabytes left.
pub proof fn lemma_low_available_memory_title(m: Metrics, t: Thresholds)
    ensures
        title_count(by_severity(candidates(m, t)), "Low Available Memory"@) == (if memory_level(m, t)
            == Severity::Warning {
            1nat
        } else {
            0nat
        }),
        forall|i: int|
            0 <= i < by_severity(candidates(m, t)).len() && (#[trigger] by_severity(
                candidates(m, t),
            )[i]).title == "Low Available Memory"@ ==> by_severity(candidates(m, t))[i].severity
                == Severity::Warning && by_severity(candidates(m, t))[i].advice == decimal_digits(
                m.mem_available_mb as nat,
            ) + " MB available. Monitor memory usage closely"@,
{
    let title = "Low Available Memory"@;
    let x = RecommendationView {
        severity: Severity::Warning,
        title,
        advice: decimal_digits(m.mem_available_mb as nat) + " MB available. Monitor memory usage closely"@,
    };
    lemma_title_keys();
    lemma_part_titles(m, t);
    lemma_count_title(m, t, title, x);
}

/// With no CPU time in the sample there is no I/O wait to report, and
/// nothing to divide by: no `Severe I/O Wait` or `High I/O Wait`
/// recommendation.
pub proof fn lemma_idle_cpu_has_no_iowait(m: Metrics, t: Thresholds)
    requires
        cpu_total(m) == 0,
    ensures
        cpu_total_fits(m),
        title_count(by_severity(candidates(m, t)), "Severe I/O Wait"@) == 0,
        title_count(by_severity(candidates(m, t)), "High I/O Wait"@) == 0,
{
    let x = RecommendationView { severity: Severity::Normal, title: seq![], advice: seq![] };
    lemma_title_keys();
    lemma_part_titles(m, t);
    lemma_count_title(m, t, "Severe I/O Wait"@, x);
    lemma_count_title(m, t, "High I/O Wait"@, x);
}

/// `High Major Faults` is recommended once, as a warning that names the
/// count, exactly when there were more than 100 major page faults.
pub proof fn lemma_high_major_faults_title(m: Metrics, t: Thresholds)
    ensures
        title_count(by_severity(candidates(m, t)), "High Major Faults"@) == (if m.pgmajfault > 100 {
            1nat
        } else {
            0nat
        }),
        titled_as(
            by_severity(candidates(m, t)),
            "High Major Faults"@,
            (RecommendationView {
                severity: Severity::Warning,
                title: "High Major Faults"@,
                advice: decimal_digits(m.pgmajfault as nat)
                    + " major faults. System may be thrashing. Add RAM or reduce load"@,
            }),
        ),
{
    let title = "High Major Faults"@;
    let x = RecommendationView {
        severity: Severity::Warning,
        title,
        advice: decimal_digits(m.pgmajfault as nat)
            + " major faults. System may be thrashing. Add RAM or reduce load"@,
    };
    lemma_title_keys();
    lemma_part_titles(m, t);
    lemma_count_title(m, t, title, x);
}

/// `High Dirty Pages` is recommended once, as a warning that names the
/// megabytes, exactly when more than 1024 MB are waiting to be written.
pub proof fn lemma_high_dirty_pages_title(m: Metrics, t: Thresholds)
    ensures
        title_count(by_severity(candidates(m, t)), "High Dirty Pages"@) == (if m.dirty_mb > 1024 {
            1nat
        } else {
            0nat
        }),
        titled_as(
            by_severity(candidates(m, t)),
            "High Dirty Pages"@,
            (RecommendationView {
                severity: Severity::Warning,
                title: "High Dirty Pages"@,
                advice: decimal_digits(m.dirty_mb as nat) + " MB waiting to be written. I/O may be backed up"@,
            }),
        ),
{
    let title = "High Dirty Pages"@;
    let x = RecommendationView {
        severity: Severity::Warning,
        title,
        advice: decimal_digits(m.dirty_mb as nat) + " MB waiting to be written. I/O may be backed up"@,
    };
    lemma_title_keys();
    lemma_part_titles(m, t);
    lemma_count_title(m, t, title, x);
}

/// `Swap Activity` is recommended once, as a warning that names the pages
/// swapped in and out, exactly when any page was swapped.
pub proof fn lemma_swap_activity_title(m: Metrics, t: Thresholds)
    ensures
        title_count(by_severity(candidates(m, t)), "Swap Activity"@) == (if m.pswpin > 0
            || m.pswpout > 0 {
            1nat
        } else {
            0nat
        }),
        titled_as(
            by_severity(candidates(m, t)),
            "Swap Activity"@,
            (RecommendationView {
                severity: Severity::Warning,
                title: "Swap Activity"@,
                advice: "Swapping in:"@ + decimal_digits(m.pswpin as nat) + " out:"@ + decimal_digits(
                    m.pswpout as nat,
                ) + ". Check: ps aux --sort=-%mem"@,
            }),
        ),
{
    let title = "Swap Activity"@;
    let x = RecommendationView {
        severity: Severity::Warning,
        title,
        advice: "Swapping in:"@ + decimal_digits(m.pswpin as nat) + " out:"@ + decimal_digits(
            m.pswpout as nat,
        ) + ". Check: ps aux --sort=-%mem"@,
    };
    lemma_title_keys();
    lemma_part_titles(m, t);
    lemma_count_title(m, t, title, x);
}

/// The IPMI DIMM status maps to its one recommendation: `nr` to a critical
/// `DIMM NON-RECOVERABLE`, `cr` to a critical `DIMM CRITICAL`, `nc` to a
/// `DIMM Warning`, each advising on the DIMM details; any other status, or
/// none, to no DIMM recommendation.
pub proof fn lemma_ipmi_dimm_titles(m: Metrics, t: Thresholds)
    ensures
        title_count(by_severity(candidates(m, t)), "DIMM NON-RECOVERABLE"@) == (if dimm_status_is(
            m,
            "nr"@,
        ) {
            1nat
        } else {
            0nat
        }),
        titled_as(
            by_severity(candidates(m, t)),
            "DIMM NON-RECOVERABLE"@,
            (RecommendationView {
                severity: Severity::Critical,
                title: "DIMM NON-RECOVERABLE"@,
                advice: dimm_details(m) + ". Check BMC logs: sudo ipmitool sel list"@,
            }),
        ),
        title_count(by_severity(candidates(m, t)), "DIMM CRITICAL"@) == (if dimm_status_is(
            m,
            "cr"@,
        ) {
            1nat
        } else {
            0nat
        }),
        titled_as(
            by_severity(candidates(m, t)),
            "DIMM CRITICAL"@,
            (RecommendationView {
                severity: Severity::Critical,
                title: "DIMM CRITICAL"@,
                advice: dimm_details(m) + ". Check cooling immediately"@,
            }),
        ),
        title_count(by_severity(candidates(m, t)), "DIMM Warning"@) == (if dimm_status_is(
            m,
            "nc"@,
        ) {
            1nat
        } else {
            0nat
        }),
        titled_as(
            by_severity(candidates(m, t)),
            "DIMM Warning"@,
            (RecommendationView {
                severity: Severity::Warning,
                title: "DIMM Warning"@,
                advice: dimm_details(m) + ". Monitor closely"@,
            }),
        ),
{
    reveal_strlit("nr");
    reveal_strlit("cr");
    reveal_strlit("nc");
    assert("nr"@[0] != "cr"@[0] && "nr"@[1] != "nc"@[1] && "cr"@[0] != "nc"@[0]);
    lemma_title_keys();
    lemma_part_titles(m, t);
    let nr = "DIMM NON-RECOVERABLE"@;
    lemma_count_title(
        m,
        t,
        nr,
        RecommendationView {
            severity: Severity::Critical,
            title: nr,
            advice: dimm_details(m) + ". Check BMC logs: sudo ipmitool sel list"@,
        },
    );
    let cr = "DIMM CRITICAL"@;
    lemma_count_title(
        m,
        t,
        cr,
        RecommendationView {
            severity: Severity::Critical,
            title: cr,
            advice: dimm_details(m) + ". Check cooling immediately"@,
        },
    );
    let nc = "DIMM Warning"@;
    lemma_count_title(
        m,
        t,
        nc,
        RecommendationView { severity: Severity::Warning, title: nc, advice: dimm_details(m) + ". Monitor closely"@ },
    );
}

/// The recommendations for one sample come most urgent first, hold nothing
/// of normal severity, and keep the order of the checks among recommendations
/// of equal severity.
pub proof fn lemma_recommendations_ordered(m: Metrics, t: Thresholds)
    ensures
        forall|i: int, j: int|
            0 <= i < j < by_severity(candidates(m, t)).len() ==> rank(
                #[trigger] by_severity(candidates(m, t))[i].severity,
            ) <= rank(#[trigger] by_severity(candidates(m, t))[j].severity),
        forall|i: int|
            0 <= i < by_severity(candidates(m, t)).len() ==> (#[trigger] by_severity(
                candidates(m, t),
            )[i]).severity != Severity::Normal,
        forall|v: Severity|
            #[trigger] with_severity(by_severity(candidates(m, t)), v) == with_severity(
                candidates(m, t),
                v,
            ),
{
    let s = candidates(m, t);
    lemma_by_severity_sorted(s);
    lemma_by_severity_reorders_only(s);
    lemma_candidates_are_urgent(m, t);
    lemma_with_severity_all(s, Severity::Critical);
    lemma_with_severity_all(s, Severity::Warning);
    let c = with_severity(s, Severity::Critical);
    let w = with_severity(s, Severity::Warning);
    assert forall|i: int| 0 <= i < by_severity(s).len() implies (#[trigger] by_severity(s)[i]).severity
        != Severity::Normal by {
        if i < c.len() {
            assert(by_severity(s)[i] == c[i]);
        } else {
            assert(by_severity(s)[i] == w[i - c.len()]);
        }
    }
}


/// `High Memory Pressure` is recommended once, as a critical issue, exactly
/// when memory pressure is at or above the critical bound.
pub proof fn lemma_high_memory_pressure_title(m: Metrics, t: Thresholds)
    ensures
        title_count(by_severity(candidates(m, t)), "High Memory Pressure"@) == (if m.mem_pressure_some_avg10 matches Some(v) && v >= t.mem_pressure_critical {
            1nat
        } else {
            0nat
        }),
        m.mem_pressure_some_avg10 matches Some(v) ==> titled_as(
            by_severity(candidates(m, t)),
            "High Memory Pressure"@,
            (RecommendationView { severity: Severity::Critical, title: "High Memory Pressure"@, advice: "Check: ps aux --sort=-%mem | head, consider adding RAM"@ }),
        ),
{
    let title = "High Memory Pressure"@;
    lemma_title_keys();
    lemma_part_titles(m, t);
    match m.mem_pressure_some_avg10 {
        Some(v) => lemma_count_title(
            m,
            t,
            title,
            RecommendationView { severity: Severity::Critical, title, advice: "Check: ps aux --sort=-%mem | head, consider adding RAM"@ },
        ),
        None => lemma_count_title(
            m,
            t,
            title,
            RecommendationView { severity: Severity::Critical, title, advice: seq![] },
        ),
    }
}

/// `Memory Pressure Detected` is recommended once, as a warning, exactly
/// when memory pressure is at or above the warning bound and below the
/// critical one.
pub proof fn lemma_memory_pressure_detected_title(m: Metrics, t: Thresholds)
    ensures
        title_count(by_severity(candidates(m, t)), "Memory Pressure Detected"@) == (if m.mem_pressure_some_avg10 matches Some(v) && t.mem_pressure_warning <= v && v < t.mem_pressure_critical {
            1nat
        } else {
            0nat
        }),
        m.mem_pressure_some_avg10 matches Some(v) ==> titled_as(
            by_severity(candidates(m, t)),
            "Memory Pressure Detected"@,
            (RecommendationView { severity: Severity::Warning, title: "Memory Pressure Detected"@, advice: "Monitor: free -h, check for memory-hungry processes"@ }),
        ),
{
    let title = "Memory Pressure Detected"@;
    lemma_title_keys();
    lemma_part_titles(m, t);
    match m.mem_pressure_some_avg10 {
        Some(v) => lemma_count_title(
            m,
            t,
            title,
            RecommendationView { severity: Severity::Warning, title, advice: "Monitor: free -h, check for memory-hungry processes"@ },
        ),
        None => lemma_count_title(
            m,
            t,
            title,
            RecommendationView { severity: Severity::Warning, title, advice: seq![] },
        ),
    }
}

/// `CPU Overheating` is recommended once, as a critical issue naming the
/// temperature, exactly when the CPU is at or above its critical temperature.
pub proof fn lemma_cpu_overheating_title(m: Metrics, t: Thresholds)
    ensures
        title_count(by_severity(candidates(m, t)), "CPU Overheating"@) == (if m.cpu_temp_millicelsius matches Some(v) && v >= t.cpu_temp_critical {
            1nat
        } else {
            0nat
        }),
        m.cpu_temp_millicelsius matches Some(v) ==> titled_as(
            by_severity(candidates(m, t)),
            "CPU Overheating"@,
            (RecommendationView { severity: Severity::Critical, title: "CPU Overheating"@, advice: "CPU at "@ + degrees(v) + "C. Check cooling, clean dust, verify thermal paste"@ }),
        ),
{
    let title = "CPU Overheating"@;
    lemma_title_keys();
    lemma_part_titles(m, t);
    match m.cpu_temp_millicelsius {
        Some(v) => lemma_count_title(
            m,
            t,
            title,
            RecommendationView { severity: Severity::Critical, title, advice: "CPU at "@ + degrees(v) + "C. Check cooling, clean dust, verify thermal paste"@ },
        ),
        None => lemma_count_title(
            m,
            t,
            title,
            RecommendationView { severity: Severity::Critical, title, advice: seq![] },
        ),
    }
}

/// `CPU Running Hot` is recommended once, as a warning naming the
/// temperature, exactly when the CPU is at or above its warning temperature
/// and below the critical one.
pub proof fn lemma_cpu_running_hot_title(m: Metrics, t: Thresholds)
    ensures
        title_count(by_severity(candidates(m, t)), "CPU Running Hot"@) == (if m.cpu_temp_millicelsius matches Some(v) && t.cpu_temp_warning <= v && v < t.cpu_temp_critical {
            1nat
        } else {
            0nat
        }),
        m.cpu_temp_millicelsius matches Some(v) ==> titled_as(
            by_severity(candidates(m, t)),
            "CPU Running Hot"@,
            (RecommendationView { severity: Severity::Warning, title: "CPU Running Hot"@, advice: "CPU at "@ + degrees(v) + "C. Consider improving cooling"@ }),
        ),
{
    let title = "CPU Running Hot"@;
    lemma_title_keys();
    lemma_part_titles(m, t);
    match m.cpu_temp_millicelsius {
        Some(v) => lemma_count_title(
            m,
            t,
            title,
            RecommendationView { severity: Severity::Warning, title, advice: "CPU at "@ + degrees(v) + "C. Consider improving cooling"@ },
        ),
        None => lemma_count_title(
            m,
            t,
            title,
            RecommendationView { severity: Severity::Warning, title, advice: seq![] },
        ),
    }
}

/// `RAM Overheating` is recommended once, as a critical issue naming the
/// temperature, exactly when the hottest DIMM is at or above its critical
/// temperature.
pub proof fn lemma_ram_overheating_title(m: Metrics, t: Thresholds)
    ensures
        title_count(by_severity(candidates(m, t)), "RAM Overheating"@) == (if m.dimm_temp_max matches Some(v) && v >= t.dimm_temp_critical {
            1nat
        } else {
            0nat
        }),
        m.dimm_temp_max matches Some(v) ==> titled_as(
            by_severity(candidates(m, t)),
            "RAM Overheating"@,
            (RecommendationView { severity: Severity::Critical, title: "RAM Overheating"@, advice: "DIMM at "@ + degrees(v) + "C. Check case airflow, consider RAM cooling"@ }),
        ),
{
    let title = "RAM Overheating"@;
    lemma_title_keys();
    lemma_part_titles(m, t);
    match m.dimm_temp_max {
        Some(v) => lemma_count_title(
            m,
            t,
            title,
            RecommendationView { severity: Severity::Critical, title, advice: "DIMM at "@ + degrees(v) + "C. Check case airflow, consider RAM cooling"@ },
        ),
        None => lemma_count_title(
            m,
            t,
            title,
            RecommendationView { severity: Severity::Critical, title, advice: seq![] },
        ),
    }
}

/// `RAM Running Warm` is recommended once, as a warning naming the
/// temperature, exactly when the hottest DIMM is at or above its warning
/// temperature and below the critical one.
pub proof fn lemma_ram_running_warm_title(m: Metrics, t: Thresholds)
    ensures
        title_count(by_severity(candidates(m, t)), "RAM Running Warm"@) == (if m.dimm_temp_max matches Some(v) && t.dimm_temp_warning <= v && v < t.dimm_temp_critical {
            1nat
        } else {
            0nat
        }),
        m.dimm_temp_max matches Some(v) ==> titled_as(
            by_severity(candidates(m, t)),
            "RAM Running Warm"@,
            (RecommendationView { severity: Severity::Warning, title: "RAM Running Warm"@, advice: "DIMM at "@ + degrees(v) + "C. Ensure adequate airflow"@ }),
        ),
{
    let title = "RAM Running Warm"@;
    lemma_title_keys();
    lemma_part_titles(m, t);
    match m.dimm_temp_max {
        Some(v) => lemma_count_title(
            m,
            t,
            title,
            RecommendationView { severity: Severity::Warning, title, advice: "DIMM at "@ + degrees(v) + "C. Ensure adequate airflow"@ },
        ),
        None => lemma_count_title(
            m,
            t,
            title,
            RecommendationView { severity: Severity::Warning, title, advice: seq![] },
        ),
    }
}

/// `Disk Overheating` is recommended once, as a critical issue naming the
/// temperature, exactly when the hottest disk is at or above its critical
/// temperature.
pub proof fn lemma_disk_overheating_title(m: Metrics, t: Thresholds)
    ensures
        title_count(by_severity(candidates(m, t)), "Disk Overheating"@) == (if m.disk_temp_max matches Some(v) && v >= t.disk_temp_critical {
            1nat
        } else {
            0nat
        }),
        m.disk_temp_max matches Some(v) ==> titled_as(
            by_severity(candidates(m, t)),
            "Disk Overheating"@,
            (RecommendationView { severity: Severity::Critical, title: "Disk Overheating"@, advice: "Disk at "@ + degrees(v) + "C. Check cooling, may cause data loss"@ }),
        ),
{
    let title = "Disk Overheating"@;
    lemma_title_keys();
    lemma_part_titles(m, t);
    match m.disk_temp_max {
        Some(v) => lemma_count_title(
            m,
            t,
            title,
            RecommendationView { severity: Severity::Critical, title, advice: "Disk at "@ + degrees(v) + "C. Check cooling, may cause data loss"@ },
        ),
        None => lemma_count_title(
            m,
            t,
            title,
            RecommendationView { severity: Severity::Critical, title, advice: seq![] },
        ),
    }
}

/// `Disk Running Hot` is recommended once, as a warning naming the
/// temperature, exactly when the hottest disk is at or above its warning
/// temperature and below the critical one.
pub proof fn lemma_disk_running_hot_title(m: Metrics, t: Thresholds)
    ensures
        title_count(by_severity(candidates(m, t)), "Disk Running Hot"@) == (if m.disk_temp_max matches Some(v) && t.disk_temp_warning <= v && v < t.disk_temp_critical {
            1nat
        } else {
            0nat
        }),
        m.disk_temp_max matches Some(v) ==> titled_as(
            by_severity(candidates(m, t)),
            "Disk Running Hot"@,
            (RecommendationView { severity: Severity::Warning, title: "Disk Running Hot"@, advice: "Disk at "@ + degrees(v) + "C. Consider better cooling"@ }),
        ),
{
    let title = "Disk Running Hot"@;
    lemma_title_keys();
    lemma_part_titles(m, t);
    match m.disk_temp_max {
        Some(v) => lemma_count_title(
            m,
            t,
            title,
            RecommendationView { severity: Severity::Warning, title, advice: "Disk at "@ + degrees(v) + "C. Consider better cooling"@ },
        ),
        None => lemma_count_title(
            m,
            t,
            title,
            RecommendationView { severity: Severity::Warning, title, advice: seq![] },
        ),
    }
}

/// `High CPU Usage` is recommended once, as a warning naming the usage in
/// whole percent, exactly when usage is at or above the warning bound.
pub proof fn lemma_high_cpu_usage_title(m: Metrics, t: Thresholds)
    ensures
        title_count(by_severity(candidates(m, t)), "High CPU Usage"@) == (if m.cpu_usage_percent
            >= t.cpu_usage_warning {
            1nat
        } else {
            0nat
        }),
        titled_as(
            by_severity(candidates(m, t)),
            "High CPU Usage"@,
            (RecommendationView {
                severity: Severity::Warning,
                title: "High CPU Usage"@,
                advice: "CPU at "@ + whole_text(m.cpu_usage_percent as int, 100)
                    + "%. Check: top, htop for CPU-intensive processes"@,
            }),
        ),
{
    let title = "High CPU Usage"@;
    lemma_title_keys();
    lemma_part_titles(m, t);
    lemma_count_title(
        m,
        t,
        title,
        RecommendationView {
            severity: Severity::Warning,
            title,
            advice: "CPU at "@ + whole_text(m.cpu_usage_percent as int, 100)
                + "%. Check: top, htop for CPU-intensive processes"@,
        },
    );
}

/// The start of the uptime run is found from `b` on, whenever uptime does
/// not drop from `b` to `i` and does drop just before `b` (or `b` is first).
proof fn lemma_run_start_is(h: Seq<Metrics>, b: int, i: int)
    requires
        0 <= b <= i < h.len(),
        forall|k: int| b <= k < i ==> (#[trigger] h[k]).uptime_centisecs <= h[k + 1].uptime_centisecs,
        b == 0 || h[b - 1].uptime_centisecs > h[b].uptime_centisecs,
    ensures
        run_start(h, i) == b,
    decreases i,
{
    if i > b {
        assert(h[i - 1].uptime_centisecs <= h[i].uptime_centisecs);
        lemma_run_start_is(h, b, i - 1);
    }
}

/// The NVMe reset check compares the latest counter with the one at the
/// earliest sample reachable from the latest without a drop in uptime: for
/// the sample `b` where that run starts, a reset is reported exactly when
/// both counters are known and the latest is larger, as a warning naming by
/// how much it rose.
pub proof fn lemma_unsafe_shutdown_baseline(h: Seq<Metrics>, b: int)
    requires
        0 <= b < h.len(),
        forall|k: int|
            b <= k < h.len() - 1 ==> h[k].uptime_centisecs <= #[trigger] h[k + 1].uptime_centisecs,
        b == 0 || h[b - 1].uptime_centisecs > h[b].uptime_centisecs,
    ensures
        unsafe_shutdown_rec(h) is Some <==> (h[h.len() - 1].smart_unsafe_shutdowns_total is Some
            && h[b].smart_unsafe_shutdowns_total is Some && h[h.len()
            - 1].smart_unsafe_shutdowns_total->0 > h[b].smart_unsafe_shutdowns_total->0),
        unsafe_shutdown_rec(h) is Some ==> unsafe_shutdown_rec(h)->0 == (RecommendationView {
            severity: Severity::Warning,
            title: "NVMe Reset Detected"@,
            advice: decimal_digits(
                (h[h.len() - 1].smart_unsafe_shutdowns_total->0 - h[b].smart_unsafe_shutdowns_total->0) as nat,
            ) + nvme_reset_advice_tail(),
        }),
{
    lemma_run_start_is(h, b, h.len() - 1);
}

/// Comparing a quotient rounded down with a bound is comparing the
/// dividend with the bound times the divisor.
proof fn lemma_floor_div_at_least(a: int, b: int, c: int)
    requires
        b > 0,
    ensures
        (a / b >= c) <==> (a >= c * b),
{
    assert(a / b >= c ==> a >= c * b) by (nonlinear_arith)
        requires
            b > 0,
    {
        assert(a == b * (a / b) + a % b);
        assert(a % b >= 0);
    }
    assert(a >= c * b ==> a / b >= c) by (nonlinear_arith)
        requires
            b > 0,
    {
        assert(a == b * (a / b) + a % b);
        assert(a % b < b);
    }
}

/// I/O wait is judged on its exact share of the sample's CPU time:
/// `Severe I/O Wait` is recommended once, as a critical issue, exactly when
/// that share (in hundredths of a percent) reaches the critical bound, and
/// `High I/O Wait` once, as a warning, exactly when it reaches the warning
/// bound but not the critical one. Each names the share in whole percent.
pub proof fn lemma_iowait_titles(m: Metrics, t: Thresholds)
    ensures
        title_count(by_severity(candidates(m, t)), "Severe I/O Wait"@) == (if cpu_total(m) > 0 && 10000
            * m.cpu_iowait >= t.iowait_critical * cpu_total(m) {
            1nat
        } else {
            0nat
        }),
        title_count(by_severity(candidates(m, t)), "High I/O Wait"@) == (if cpu_total(m) > 0 && 10000
            * m.cpu_iowait >= t.iowait_warning * cpu_total(m) && 10000 * m.cpu_iowait
            < t.iowait_critical * cpu_total(m) {
            1nat
        } else {
            0nat
        }),
        cpu_total(m) > 0 ==> titled_as(
            by_severity(candidates(m, t)),
            "Severe I/O Wait"@,
            (RecommendationView {
                severity: Severity::Critical,
                title: "Severe I/O Wait"@,
                advice: decimal_digits(round_half_even((100 * m.cpu_iowait) as nat, cpu_total(m) as nat))
                    + "% CPU waiting for I/O. Disk is severe bottleneck"@,
            }),
        ),
        cpu_total(m) > 0 ==> titled_as(
            by_severity(candidates(m, t)),
            "High I/O Wait"@,
            (RecommendationView {
                severity: Severity::Warning,
                title: "High I/O Wait"@,
                advice: decimal_digits(round_half_even((100 * m.cpu_iowait) as nat, cpu_total(m) as nat))
                    + "% CPU waiting for I/O. Disk may be bottleneck"@,
            }),
        ),
{
    let total = cpu_total(m);
    let shown = decimal_digits(round_half_even((100 * m.cpu_iowait) as nat, total as nat));
    if total > 0 {
        lemma_floor_div_at_least(10000 * m.cpu_iowait, total, t.iowait_critical as int);
        lemma_floor_div_at_least(10000 * m.cpu_iowait, total, t.iowait_warning as int);
    }
    lemma_title_keys();
    lemma_part_titles(m, t);
    lemma_count_title(
        m,
        t,
        "Severe I/O Wait"@,
        RecommendationView {
            severity: Severity::Critical,
            title: "Severe I/O Wait"@,
            advice: shown + "% CPU waiting for I/O. Disk is severe bottleneck"@,
        },
    );
    lemma_count_title(
        m,
        t,
        "High I/O Wait"@,
        RecommendationView {
            severity: Severity::Warning,
            title: "High I/O Wait"@,
            advice: shown + "% CPU waiting for I/O. Disk may be bottleneck"@,
        },
    );
}

} // verus!
