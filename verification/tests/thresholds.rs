use slow_rs::thresholds::{Severity, Thresholds};

#[test]
fn high_is_bad_thresholds_use_warning_and_critical_bounds() {
    let thresholds = Thresholds::default();

    assert_eq!(thresholds.cpu_usage_severity(7990), Severity::Normal);
    assert_eq!(thresholds.io_pressure_severity(990), Severity::Normal);
    assert_eq!(thresholds.io_pressure_severity(1000), Severity::Warning);
    assert_eq!(thresholds.io_pressure_severity(2500), Severity::Critical);

    assert_eq!(thresholds.mem_pressure_severity(990), Severity::Normal);
    assert_eq!(thresholds.mem_pressure_severity(1000), Severity::Warning);
    assert_eq!(thresholds.mem_pressure_severity(2500), Severity::Critical);

    assert_eq!(thresholds.iowait_severity(1990), Severity::Normal);
    assert_eq!(thresholds.iowait_severity(2000), Severity::Warning);
    assert_eq!(thresholds.iowait_severity(4000), Severity::Critical);
}

#[test]
fn cpu_usage_is_warning_only_even_when_saturated() {
    let thresholds = Thresholds::default();

    assert_eq!(thresholds.cpu_usage_severity(7990), Severity::Normal);
    assert_eq!(thresholds.cpu_usage_severity(8000), Severity::Warning);
    assert_eq!(thresholds.cpu_usage_severity(9500), Severity::Warning);
    assert_eq!(thresholds.cpu_usage_severity(10000), Severity::Warning);
}

#[test]
fn low_memory_available_is_bad() {
    let thresholds = Thresholds::default();

    assert_eq!(thresholds.memory_available_severity(2048), Severity::Normal);
    assert_eq!(thresholds.memory_available_severity(1024), Severity::Warning);
    assert_eq!(thresholds.memory_available_severity(256), Severity::Critical);
}

#[test]
fn temperature_thresholds_share_boundary_behavior() {
    let thresholds = Thresholds::default();

    assert_eq!(thresholds.cpu_temp_severity(74_900), Severity::Normal);
    assert_eq!(thresholds.cpu_temp_severity(75_000), Severity::Warning);
    assert_eq!(thresholds.cpu_temp_severity(85_000), Severity::Critical);

    assert_eq!(thresholds.dimm_temp_severity(69_900), Severity::Normal);
    assert_eq!(thresholds.dimm_temp_severity(70_000), Severity::Warning);
    assert_eq!(thresholds.dimm_temp_severity(80_000), Severity::Critical);

    assert_eq!(thresholds.disk_temp_severity(49_900), Severity::Normal);
    assert_eq!(thresholds.disk_temp_severity(50_000), Severity::Warning);
    assert_eq!(thresholds.disk_temp_severity(60_000), Severity::Critical);
}

#[test]
fn default_thresholds_and_severity() {
    let t = Thresholds::default();
    assert_eq!(t.io_pressure_warning, 1000);
    assert_eq!(t.io_pressure_critical, 2500);
    assert_eq!(t.cpu_usage_warning, 8000);
    assert_eq!(t.memory_available_warning_mb, 1024);
    assert_eq!(t.memory_available_critical_mb, 256);
    assert_eq!(t.cpu_temp_warning, 75_000);
    assert_eq!(t.cpu_temp_critical, 85_000);
    assert_eq!(t.iowait_warning, 2000);
    assert_eq!(t.iowait_critical, 4000);
    assert_eq!(Severity::default(), Severity::Normal);
}

#[test]
fn severity_grows_with_value_and_shrinks_with_memory() {
    let t = Thresholds::default();
    let mut last = 0;
    for v in [0i64, 500, 999, 1000, 2499, 2500, 9000] {
        let level = match t.io_pressure_severity(v) {
            Severity::Normal => 0,
            Severity::Warning => 1,
            Severity::Critical => 2,
        };
        assert!(level >= last);
        last = level;
    }
    assert_eq!(t.memory_available_severity(0), Severity::Critical);
    assert_eq!(t.memory_available_severity(257), Severity::Warning);
    assert_eq!(t.memory_available_severity(1025), Severity::Normal);
    assert_eq!(t.cpu_temp_severity(-5_000), Severity::Normal);
}
