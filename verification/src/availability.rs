//! Metric availability tracking.
//!
//! This module tracks which metric sources are available on the system,
//! allowing the UI to show warnings when metrics are missing due to
//! permissions or kernel configuration. Probing the system is left to the
//! caller; this module decides what the probes mean.

use vstd::prelude::*;
use vstd::string::*;
use crate::text::{chars_of, find, lemma_find_needs_char, trim, trim_in, window, window_equals};

verus! {

/// Tracks which metric sources are available.
#[derive(Clone, Copy, Debug, PartialEq, Eq, Structural)]
pub struct MetricAvailability {
    /// /proc/pressure/* is available (requires Linux 4.20+ with CONFIG_PSI)
    pub proc_pressure: bool,
    /// jc42 DIMM temperature sensors found
    pub sys_hwmon_dimm: bool,
    /// NVMe temperature sensors found
    pub sys_hwmon_nvme: bool,
    /// smartctl is available
    pub smartctl: bool,
    /// ipmitool is available (for BMC sensors)
    pub ipmitool: bool,
    /// We can run commands that require elevated privileges.
    pub privileged_commands: bool,
}

impl Default for MetricAvailability {
    fn default() -> (a: Self)
        ensures
            !a.proc_pressure && !a.sys_hwmon_dimm && !a.sys_hwmon_nvme && !a.smartctl
                && !a.ipmitool && !a.privileged_commands,
    {
        MetricAvailability {
            proc_pressure: false,
            sys_hwmon_dimm: false,
            sys_hwmon_nvme: false,
            smartctl: false,
            ipmitool: false,
            privileged_commands: false,
        }
    }
}

/// Privileged commands can run when the process is root, or when a tool that
/// needs privileges is installed and passwordless sudo works.
pub open spec fn privileged(elevated: bool, smartctl: bool, ipmitool: bool, sudo_access: bool) -> bool {
    elevated || ((smartctl || ipmitool) && sudo_access)
}

/// The warnings for the unavailable metric sources of `a`, in order.
pub open spec fn warnings_of(a: MetricAvailability) -> Seq<Seq<char>> {
    (if !a.proc_pressure {
        seq!["PSI unavailable (requires Linux 4.20+ with CONFIG_PSI)"@]
    } else {
        seq![]
    }) + (if !a.sys_hwmon_dimm {
        seq!["RAM temp sensors not found (no jc42 hwmon devices)"@]
    } else {
        seq![]
    }) + (if !a.sys_hwmon_nvme {
        seq!["NVMe temp sensors not found"@]
    } else {
        seq![]
    }) + (if !a.smartctl {
        seq!["smartctl not found (install smartmontools for disk health)"@]
    } else if !a.privileged_commands {
        seq!["SMART health unavailable (run with sudo)"@]
    } else {
        seq![]
    }) + (if !a.ipmitool && a.privileged_commands {
        seq!["ipmitool not found (install for BMC/IPMI sensors)"@]
    } else if a.ipmitool && !a.privileged_commands {
        seq!["IPMI/BMC sensors unavailable (run with sudo)"@]
    } else {
        seq![]
    })
}

/// One of the contents `names` of hwmon `name` files, trimmed, is `driver`.
pub open spec fn names_include(names: Seq<String>, driver: Seq<char>) -> bool {
    exists|i: int| 0 <= i < names.len() && trim((#[trigger] names[i])@) == driver
}

fn push_text(v: &mut Vec<String>, text: &str)
    ensures
        final(v)@.len() == old(v)@.len() + 1,
        forall|i: int| 0 <= i < old(v)@.len() ==> final(v)@[i] == old(v)@[i],
        final(v)@[old(v)@.len() as int]@ == text@,
{
    v.push(String::from_str(text));
}

impl MetricAvailability {
    /// Availability from the results of probing the system: whether
    /// `/proc/pressure/cpu` reads, whether jc42 and NVMe hwmon sensors exist,
    /// whether `smartctl` and `ipmitool` are installed, whether the process
    /// runs as root, and whether passwordless sudo works.
    pub fn from_probes(
        proc_pressure: bool,
        sys_hwmon_dimm: bool,
        sys_hwmon_nvme: bool,
        smartctl: bool,
        ipmitool: bool,
        elevated: bool,
        sudo_access: bool,
    ) -> (a: Self)
        ensures
            a.proc_pressure == proc_pressure,
            a.sys_hwmon_dimm == sys_hwmon_dimm,
            a.sys_hwmon_nvme == sys_hwmon_nvme,
            a.smartctl == smartctl,
            a.ipmitool == ipmitool,
            a.privileged_commands == privileged(elevated, smartctl, ipmitool, sudo_access),
    {
        MetricAvailability {
            proc_pressure,
            sys_hwmon_dimm,
            sys_hwmon_nvme,
            smartctl,
            ipmitool,
            privileged_commands: elevated || ((smartctl || ipmitool) && sudo_access),
        }
    }

    /// Whether passwordless sudo needs probing: only when not root and a tool
    /// that needs privileges is installed.
    pub fn sudo_probe_needed(smartctl: bool, ipmitool: bool, elevated: bool) -> (r: bool)
        ensures
            r == (!elevated && (smartctl || ipmitool)),
    {
        !elevated && (smartctl || ipmitool)
    }

    /// Whether one of the hwmon device names is `driver` (whitespace such as
    /// the trailing newline of a `name` file aside).
    pub fn hwmon_names_include(names: &Vec<String>, driver: &str) -> (r: bool)
        ensures
            r == names_include(names@, driver@),
    {
        let wanted = chars_of(driver);
        let mut i: usize = 0;
        while i < names.len()
            invariant
                i <= names.len(),
                wanted@ == driver@,
                forall|j: int| 0 <= j < i ==> trim((#[trigger] names@[j])@) != driver@,
            decreases names.len() - i,
        {
            let chars = chars_of(names[i].as_str());
            let hi = chars.len();
            let (a, b) = trim_in(&chars, 0, hi);
            assert(window(chars@, 0, hi as int) =~= names@[i as int]@);
            if window_equals(&chars, a, b, &wanted) {
                return true;
            }
            i = i + 1;
        }
        false
    }

    /// jc42 DIMM temperature sensors are among the hwmon devices `names`.
    pub fn check_dimm_sensors(names: &Vec<String>) -> (r: bool)
        ensures
            r == names_include(names@, "jc42"@),
    {
        Self::hwmon_names_include(names, "jc42")
    }

    /// NVMe temperature sensors are among the hwmon devices `names`.
    pub fn check_nvme_sensors(names: &Vec<String>) -> (r: bool)
        ensures
            r == names_include(names@, "nvme"@),
    {
        Self::hwmon_names_include(names, "nvme")
    }

    /// Generate warnings for unavailable metrics.
    pub fn get_warnings(&self) -> (r: Vec<String>)
        ensures
            r@.map_values(|s: String| s@) == warnings_of(*self),
    {
        let mut warnings: Vec<String> = Vec::new();
        if !self.proc_pressure {
            push_text(&mut warnings, "PSI unavailable (requires Linux 4.20+ with CONFIG_PSI)");
        }
        if !self.sys_hwmon_dimm {
            push_text(&mut warnings, "RAM temp sensors not found (no jc42 hwmon devices)");
        }
        if !self.sys_hwmon_nvme {
            push_text(&mut warnings, "NVMe temp sensors not found");
        }
        if !self.smartctl {
            push_text(&mut warnings, "smartctl not found (install smartmontools for disk health)");
        } else if !self.privileged_commands {
            push_text(&mut warnings, "SMART health unavailable (run with sudo)");
        }
        if !self.ipmitool && self.privileged_commands {
            push_text(&mut warnings, "ipmitool not found (install for BMC/IPMI sensors)");
        } else if self.ipmitool && !self.privileged_commands {
            push_text(&mut warnings, "IPMI/BMC sensors unavailable (run with sudo)");
        }
        assert(warnings@.map_values(|s: String| s@) =~= warnings_of(*self));
        warnings
    }
}

/// There is no warning exactly when every metric source is available and
/// privileged commands can run.
pub proof fn lemma_no_warnings_iff_fully_available(a: MetricAvailability)
    ensures
        warnings_of(a).len() == 0 <==> (a.proc_pressure && a.sys_hwmon_dimm && a.sys_hwmon_nvme
            && a.smartctl && a.ipmitool && a.privileged_commands),
{
}

/// Whether sudo works does not matter when it is not probed.
pub proof fn lemma_unprobed_sudo_is_irrelevant(elevated: bool, smartctl: bool, ipmitool: bool)
    requires
        !(!elevated && (smartctl || ipmitool)),
    ensures
        privileged(elevated, smartctl, ipmitool, true) == privileged(
            elevated,
            smartctl,
            ipmitool,
            false,
        ),
{
}

/// Warning messages are told apart by their first character.
proof fn lemma_messages_differ()
    ensures
        "PSI unavailable (requires Linux 4.20+ with CONFIG_PSI)"@.len() > 0 && "PSI unavailable (requires Linux 4.20+ with CONFIG_PSI)"@[0] == 'P',
        "RAM temp sensors not found (no jc42 hwmon devices)"@.len() > 0 && "RAM temp sensors not found (no jc42 hwmon devices)"@[0] == 'R',
        "NVMe temp sensors not found"@.len() > 0 && "NVMe temp sensors not found"@[0] == 'N',
        "smartctl not found (install smartmontools for disk health)"@.len() > 0 && "smartctl not found (install smartmontools for disk health)"@[0] == 's',
        "SMART health unavailable (run with sudo)"@.len() > 0 && "SMART health unavailable (run with sudo)"@[0] == 'S',
        "ipmitool not found (install for BMC/IPMI sensors)"@.len() > 0 && "ipmitool not found (install for BMC/IPMI sensors)"@[0] == 'i',
        "IPMI/BMC sensors unavailable (run with sudo)"@.len() > 0 && "IPMI/BMC sensors unavailable (run with sudo)"@[0] == 'I',
{
    reveal_strlit("PSI unavailable (requires Linux 4.20+ with CONFIG_PSI)");
    reveal_strlit("RAM temp sensors not found (no jc42 hwmon devices)");
    reveal_strlit("NVMe temp sensors not found");
    reveal_strlit("smartctl not found (install smartmontools for disk health)");
    reveal_strlit("SMART health unavailable (run with sudo)");
    reveal_strlit("ipmitool not found (install for BMC/IPMI sensors)");
    reveal_strlit("IPMI/BMC sensors unavailable (run with sudo)");
}

/// No warning other than the two IPMI ones mentions `ipmitool` or `IPMI`.
proof fn lemma_messages_free_of_ipmi()
    ensures
        find("PSI unavailable (requires Linux 4.20+ with CONFIG_PSI)"@, "ipmitool"@) is None,
        find("PSI unavailable (requires Linux 4.20+ with CONFIG_PSI)"@, "IPMI"@) is None,
        find("RAM temp sensors not found (no jc42 hwmon devices)"@, "ipmitool"@) is None,
        find("RAM temp sensors not found (no jc42 hwmon devices)"@, "IPMI"@) is None,
        find("NVMe temp sensors not found"@, "ipmitool"@) is None,
        find("NVMe temp sensors not found"@, "IPMI"@) is None,
        find("smartctl not found (install smartmontools for disk health)"@, "ipmitool"@) is None,
        find("smartctl not found (install smartmontools for disk health)"@, "IPMI"@) is None,
        find("SMART health unavailable (run with sudo)"@, "ipmitool"@) is None,
        find("SMART health unavailable (run with sudo)"@, "IPMI"@) is None,
{
    reveal_strlit("PSI unavailable (requires Linux 4.20+ with CONFIG_PSI)");
    reveal_strlit("RAM temp sensors not found (no jc42 hwmon devices)");
    reveal_strlit("NVMe temp sensors not found");
    reveal_strlit("smartctl not found (install smartmontools for disk health)");
    reveal_strlit("SMART health unavailable (run with sudo)");
    reveal_strlit("ipmitool");
    reveal_strlit("IPMI");
    let psi = "PSI unavailable (requires Linux 4.20+ with CONFIG_PSI)"@;
    let ram = "RAM temp sensors not found (no jc42 hwmon devices)"@;
    let nvme = "NVMe temp sensors not found"@;
    let tool = "smartctl not found (install smartmontools for disk health)"@;
    let smart = "SMART health unavailable (run with sudo)"@;
    // `ipmitool` holds 'p' at 1 and 'l' at 7; `IPMI` holds 'I' at 0 and 'M' at 2.
    assert(!psi.contains('p'));
    assert(!psi.contains('M'));
    assert(!ram.contains('l'));
    assert(!ram.contains('I'));
    assert(!nvme.contains('l'));
    assert(!nvme.contains('I'));
    assert(!tool.contains('p'));
    assert(!tool.contains('I'));
    assert(!smart.contains('p'));
    assert(!smart.contains('I'));
    lemma_find_needs_char(psi, "ipmitool"@, 1, 0);
    lemma_find_needs_char(psi, "IPMI"@, 2, 0);
    lemma_find_needs_char(ram, "ipmitool"@, 7, 0);
    lemma_find_needs_char(ram, "IPMI"@, 0, 0);
    lemma_find_needs_char(nvme, "ipmitool"@, 7, 0);
    lemma_find_needs_char(nvme, "IPMI"@, 0, 0);
    lemma_find_needs_char(tool, "ipmitool"@, 1, 0);
    lemma_find_needs_char(tool, "IPMI"@, 0, 0);
    lemma_find_needs_char(smart, "ipmitool"@, 1, 0);
    lemma_find_needs_char(smart, "IPMI"@, 0, 0);
}

/// Without ipmitool and without privileges no warning mentions `ipmitool`
/// or `IPMI`: the unprivileged state is already reported for SMART, or not
/// at all.
pub proof fn lemma_no_ipmi_warning_without_ipmitool(a: MetricAvailability)
    requires
        !a.ipmitool,
        !a.privileged_commands,
    ensures
        forall|i: int|
            0 <= i < warnings_of(a).len() ==> find(#[trigger] warnings_of(a)[i], "ipmitool"@) is None
                && find(warnings_of(a)[i], "IPMI"@) is None,
{
    lemma_messages_free_of_ipmi();
}

/// At most five warnings, no two alike, and none exactly when every source
/// is available and privileged commands can run.
pub proof fn lemma_warnings_shape(a: MetricAvailability)
    ensures
        warnings_of(a).len() <= 5,
        forall|i: int, j: int|
            0 <= i < j < warnings_of(a).len() ==> #[trigger] warnings_of(a)[i] != #[trigger] warnings_of(a)[j],
        warnings_of(a).len() == 0 <==> (a.proc_pressure && a.sys_hwmon_dimm && a.sys_hwmon_nvme
            && a.smartctl && a.ipmitool && a.privileged_commands),
{
    lemma_messages_differ();
    let w = warnings_of(a);
    assert forall|i: int, j: int| 0 <= i < j < w.len() implies #[trigger] w[i] != #[trigger] w[j] by {
        assert(w[i][0] != w[j][0]);
    }
}

/// Each warning is given exactly when its source is missing: PSI, the DIMM
/// and NVMe sensors when absent; "smartctl not found" when smartctl is not
/// installed, and the SMART sudo hint only when it is installed but
/// privileged commands cannot run; "ipmitool not found" only when privileges
/// would let it run, and the IPMI sudo hint only when it is installed but
/// privileged commands cannot run.
pub proof fn lemma_each_warning_has_its_cause(a: MetricAvailability)
    ensures
        warnings_of(a).contains("PSI unavailable (requires Linux 4.20+ with CONFIG_PSI)"@)
            <==> !a.proc_pressure,
        warnings_of(a).contains("RAM temp sensors not found (no jc42 hwmon devices)"@)
            <==> !a.sys_hwmon_dimm,
        warnings_of(a).contains("NVMe temp sensors not found"@) <==> !a.sys_hwmon_nvme,
        warnings_of(a).contains("smartctl not found (install smartmontools for disk health)"@)
            <==> !a.smartctl,
        warnings_of(a).contains("SMART health unavailable (run with sudo)"@) <==> (a.smartctl
            && !a.privileged_commands),
        warnings_of(a).contains("ipmitool not found (install for BMC/IPMI sensors)"@) <==> (
        !a.ipmitool && a.privileged_commands),
        warnings_of(a).contains("IPMI/BMC sensors unavailable (run with sudo)"@) <==> (a.ipmitool
            && !a.privileged_commands),
{
    broadcast use {
        vstd::seq_lib::lemma_seq_concat_contains_all_elements,
        vstd::seq_lib::lemma_seq_contains_after_push,
        vstd::seq_lib::lemma_seq_empty_contains_nothing,
    };

    lemma_messages_differ();
}

} // verus!
