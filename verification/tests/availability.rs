use slow_rs::availability::MetricAvailability;

#[test]
fn warnings_include_privilege_gaps_for_installed_tools() {
    let availability = MetricAvailability {
        proc_pressure: true,
        sys_hwmon_dimm: true,
        sys_hwmon_nvme: true,
        smartctl: true,
        ipmitool: true,
        privileged_commands: false,
    };

    let warnings = availability.get_warnings();

    assert!(warnings.iter().any(|w| w.contains("SMART health unavailable")));
    assert!(warnings.iter().any(|w| w.contains("IPMI/BMC sensors")));
}

#[test]
fn fully_available_privileged_system_has_no_warnings() {
    let a = MetricAvailability {
        proc_pressure: true,
        sys_hwmon_dimm: true,
        sys_hwmon_nvme: true,
        smartctl: true,
        ipmitool: true,
        privileged_commands: true,
    };
    assert!(a.get_warnings().is_empty());
}

#[test]
fn nothing_available_lists_every_missing_source_in_order() {
    let a = MetricAvailability::default();
    assert_eq!(
        a.get_warnings(),
        vec![
            "PSI unavailable (requires Linux 4.20+ with CONFIG_PSI)".to_string(),
            "RAM temp sensors not found (no jc42 hwmon devices)".to_string(),
            "NVMe temp sensors not found".to_string(),
            "smartctl not found (install smartmontools for disk health)".to_string(),
        ]
    );
    let privileged = MetricAvailability { privileged_commands: true, smartctl: true, ..a };
    assert_eq!(
        privileged.get_warnings().last().unwrap(),
        "ipmitool not found (install for BMC/IPMI sensors)"
    );
}

#[test]
fn probes_combine_into_privileges() {
    let root = MetricAvailability::from_probes(true, false, false, false, false, true, false);
    assert!(root.privileged_commands);
    let sudo = MetricAvailability::from_probes(true, false, false, true, false, false, true);
    assert!(sudo.privileged_commands);
    let no_tools = MetricAvailability::from_probes(true, false, false, false, false, false, true);
    assert!(!no_tools.privileged_commands);
    assert!(MetricAvailability::sudo_probe_needed(true, false, false));
    assert!(!MetricAvailability::sudo_probe_needed(true, true, true));
    assert!(!MetricAvailability::sudo_probe_needed(false, false, false));
    // When sudo is not probed, its answer cannot change the outcome.
    for (smartctl, ipmitool, elevated) in [(true, true, true), (false, false, false), (false, true, true)] {
        assert!(!MetricAvailability::sudo_probe_needed(smartctl, ipmitool, elevated));
        let with = MetricAvailability::from_probes(true, true, true, smartctl, ipmitool, elevated, true);
        let without = MetricAvailability::from_probes(true, true, true, smartctl, ipmitool, elevated, false);
        assert_eq!(with, without);
    }
}

#[test]
fn hwmon_names_are_compared_trimmed() {
    let names = vec!["coretemp\n".to_string(), " jc42\n".to_string()];
    assert!(MetricAvailability::check_dimm_sensors(&names));
    assert!(!MetricAvailability::check_nvme_sensors(&names));
    assert!(MetricAvailability::check_nvme_sensors(&vec!["nvme\n".to_string()]));
    assert!(!MetricAvailability::hwmon_names_include(&vec!["jc42x".to_string()], "jc42"));
}

#[test]
fn no_ipmi_warning_without_ipmitool_and_privileges() {
    for bits in 0u32..16 {
        let a = MetricAvailability {
            proc_pressure: bits & 1 != 0,
            sys_hwmon_dimm: bits & 2 != 0,
            sys_hwmon_nvme: bits & 4 != 0,
            smartctl: bits & 8 != 0,
            ipmitool: false,
            privileged_commands: false,
        };
        let warnings = a.get_warnings();
        assert!(!warnings.iter().any(|w| w.contains("ipmitool") || w.contains("IPMI")));
    }
}

#[test]
fn warnings_are_few_and_distinct() {
    for bits in 0u32..64 {
        let a = MetricAvailability {
            proc_pressure: bits & 1 != 0,
            sys_hwmon_dimm: bits & 2 != 0,
            sys_hwmon_nvme: bits & 4 != 0,
            smartctl: bits & 8 != 0,
            ipmitool: bits & 16 != 0,
            privileged_commands: bits & 32 != 0,
        };
        let w = a.get_warnings();
        assert!(w.len() <= 5);
        for i in 0..w.len() {
            for j in i + 1..w.len() {
                assert_ne!(w[i], w[j]);
            }
        }
        assert_eq!(w.is_empty(), bits == 63);
    }
}
