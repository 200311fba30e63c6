use slow_rs::smart::{
    normalize_device_name, DeviceRead, DeviceStage, DeviceStep, SmartDevice, SmartHealth,
    SmartctlOutput, SmartctlQuery,
};

#[test]
fn empty_smart_results_are_not_healthy() {
    let health = SmartHealth::default();

    assert!(!health.all_healthy());
}

#[test]
fn all_healthy_requires_every_device_to_pass() {
    let mut health = SmartHealth {
        available: true,
        devices: vec![SmartDevice {
            name: "/dev/sda".to_string(),
            health_passed: true,
            temperature: None,
            reallocated_sectors: None,
            pending_sectors: None,
            unsafe_shutdowns: None,
        }],
    };

    assert!(health.all_healthy());

    health.devices.push(SmartDevice {
        name: "/dev/sdb".to_string(),
        health_passed: false,
        temperature: None,
        reallocated_sectors: None,
        pending_sectors: None,
        unsafe_shutdowns: None,
    });

    assert!(!health.all_healthy());
}

#[test]
fn parses_smartctl_json_health_temperature_and_attributes() {
    let json = r#"
    {
      "smart_status": { "passed": true },
      "temperature": { "current": 42 },
      "ata_smart_attributes": {
        "table": [
          { "name": "Reallocated_Sector_Ct", "raw": { "value": 7 } },
          { "name": "Current_Pending_Sector", "raw": { "value": 2 } }
        ]
      }
    }
    "#;

    let device = SmartHealth::parse_smartctl_json(json, "/dev/sda").unwrap();

    assert!(device.health_passed);
    assert_eq!(device.name, "/dev/sda");
    assert_eq!(device.temperature, Some(42_000));
    assert_eq!(device.reallocated_sectors, Some(7));
    assert_eq!(device.pending_sectors, Some(2));
}

#[test]
fn parses_smartctl_json_even_when_exit_status_is_nonzero() {
    let json = r#"
    {
      "smartctl": { "exit_status": 8 },
      "smart_status": { "passed": false },
      "temperature": { "current": 37 }
    }
    "#;

    let device = SmartHealth::parse_smartctl_output(json.as_bytes(), false, "/dev/sda").unwrap();

    assert_eq!(device.name, "/dev/sda");
    assert_eq!(device.temperature, Some(37_000));
}

#[test]
fn parses_ata_temperature_attribute_when_top_level_temperature_is_missing() {
    let json = r#"
    {
      "smart_status": { "passed": true },
      "ata_smart_attributes": {
        "table": [
          { "name": "Temperature_Celsius", "raw": { "value": 34 } }
        ]
      }
    }
    "#;

    let device = SmartHealth::parse_smartctl_json(json, "/dev/sdb").unwrap();

    assert_eq!(device.temperature, Some(34_000));
}

#[test]
fn parses_ata_temperature_string_instead_of_packed_raw_value() {
    let json = r#"
    {
      "smart_status": { "passed": true },
      "ata_smart_attributes": {
        "table": [
          {
            "name": "Temperature_Celsius",
            "raw": {
              "value": 240519020585,
              "string": "41 (Min/Max 20/54)"
            }
          }
        ]
      }
    }
    "#;

    let device = SmartHealth::parse_smartctl_json(json, "/dev/sda").unwrap();

    assert_eq!(device.temperature, Some(41_000));
}

#[test]
fn ignores_implausible_packed_temperature_raw_value() {
    let json = r#"
    {
      "smart_status": { "passed": true },
      "ata_smart_attributes": {
        "table": [
          {
            "name": "Temperature_Celsius",
            "raw": { "value": 240519020585 }
          }
        ]
      }
    }
    "#;

    let device = SmartHealth::parse_smartctl_json(json, "/dev/sda").unwrap();

    assert_eq!(device.temperature, None);
}

#[test]
fn parses_sata_smart_attribute_text_temperature() {
    let output = r#"
190 Airflow_Temperature_Cel 0x0022   071   047   000    Old_age   Always       -       29 (Min/Max 24/30)
194 Temperature_Celsius     0x0022   029   053   000    Old_age   Always       -       29 (0 17 0 0 0)
"#;

    let device =
        SmartHealth::parse_smartctl_text_output(output.as_bytes(), "/dev/sda", None).unwrap();

    assert_eq!(device.name, "/dev/sda");
    assert_eq!(device.temperature, Some(29_000));
}

#[test]
fn text_temperature_fallback_preserves_json_health_fields() {
    let output = r#"
194 Temperature_Celsius     0x0022   029   053   000    Old_age   Always       -       29 (0 17 0 0 0)
"#;
    let parsed = SmartDevice {
        name: "/dev/sda".to_string(),
        health_passed: false,
        temperature: None,
        reallocated_sectors: Some(3),
        pending_sectors: Some(1),
        unsafe_shutdowns: None,
    };

    let device =
        SmartHealth::parse_smartctl_text_output(output.as_bytes(), "/dev/sda", Some(parsed))
            .unwrap();

    assert!(!device.health_passed);
    assert_eq!(device.temperature, Some(29_000));
    assert_eq!(device.reallocated_sectors, Some(3));
    assert_eq!(device.pending_sectors, Some(1));
}

#[test]
fn smart_helpers_aggregate_devices() {
    let health = SmartHealth {
        available: true,
        devices: vec![
            SmartDevice {
                name: "/dev/sda".to_string(),
                health_passed: true,
                temperature: Some(41_000),
                reallocated_sectors: Some(1),
                pending_sectors: Some(0),
                unsafe_shutdowns: Some(44),
            },
            SmartDevice {
                name: "/dev/sdb".to_string(),
                health_passed: true,
                temperature: Some(47_000),
                reallocated_sectors: Some(4),
                pending_sectors: Some(3),
                unsafe_shutdowns: None,
            },
        ],
    };

    assert_eq!(
        health.device_temperatures(),
        vec![("/dev/sda".to_string(), 41_000), ("/dev/sdb".to_string(), 47_000)]
    );
    assert_eq!(health.total_reallocated_sectors(), 5);
    assert_eq!(health.total_pending_sectors(), 3);
    assert_eq!(health.unsafe_shutdowns(), vec![("/dev/sda".to_string(), 44)]);
}

#[test]
fn parses_nvme_unsafe_shutdowns_from_health_log() {
    let json = r#"
    {
      "smart_status": { "passed": true },
      "temperature": { "current": 38 },
      "nvme_smart_health_information_log": {
        "critical_warning": 0,
        "temperature": 38,
        "unsafe_shutdowns": 44,
        "media_errors": 0
      }
    }
    "#;

    let device = SmartHealth::parse_smartctl_json(json, "/dev/nvme0").unwrap();

    assert_eq!(device.unsafe_shutdowns, Some(44));
}

#[test]
fn smart_attribute_parser_uses_reallocated_event_fallback() {
    let json = r#"
    {
      "passed": false,
      "temperature": { "current": 38 },
      "ata_smart_attributes": {
        "table": [
          { "name": "Reallocated_Event_Count", "raw": { "value": 9 } }
        ]
      }
    }
    "#;

    let device = SmartHealth::parse_smartctl_json(json, "/dev/nvme0").unwrap();

    assert!(!device.health_passed);
    assert_eq!(device.temperature, Some(38_000));
    assert_eq!(device.reallocated_sectors, Some(9));
    assert_eq!(device.pending_sectors, None);
}

fn json(text: &str) -> SmartDevice {
    SmartHealth::parse_smartctl_json(text, "/dev/x").unwrap()
}

#[test]
fn json_numbers_follow_float_reading() {
    assert_eq!(json(r#"{"temperature": 38.5}"#).temperature, Some(38_500));
    assert_eq!(json(r#"{"temperature": -12.25}"#).temperature, Some(-12_250));
    assert_eq!(json(r#"{"temperature": 150.0001}"#).temperature, None);
    assert_eq!(json(r#"{"temperature": 150.000}"#).temperature, Some(150_000));
    assert_eq!(json(r#"{"temperature": -50.5}"#).temperature, None);
    assert_eq!(json(r#"{"temperature": 1-2}"#).temperature, None);
    assert_eq!(json(r#"{"temperature": { "current": 999 }, "x": 1}"#).temperature, None);
    assert_eq!(json(r#"{"unsafe_shutdowns": -3}"#).unsafe_shutdowns, Some(0));
    assert_eq!(json(r#"{"unsafe_shutdowns": 12.9}"#).unsafe_shutdowns, Some(12));
    assert_eq!(
        json(r#"{"unsafe_shutdowns": 99999999999999999999999}"#).unsafe_shutdowns,
        Some(u64::MAX)
    );
    assert_eq!(json(r#"{"unsafe_shutdowns": "n/a"}"#).unsafe_shutdowns, None);
}

#[test]
fn json_object_scan_respects_strings_and_nesting() {
    let nested = r#"{"temperature": {"note": "} {", "inner": {"current": 99}, "current": 44}}"#;
    // The first `"current"` inside the object wins, even a nested one.
    assert_eq!(json(nested).temperature, Some(99_000));
    let unbalanced = r#"{"temperature": {"current": 33 "#;
    assert_eq!(json(unbalanced).temperature, None);
}

#[test]
fn json_fallbacks_for_health_and_power_loss() {
    let d = json(
        r#"{"smart_status": {"passed": true}, "ata_smart_attributes": {"table": [
            {"name": "Power-Off_Retract_Count", "raw": {"value": 12}},
            {"name": "Airflow_Temperature_Cel", "raw": {"value": 30, "string": "30"}}
        ]}}"#,
    );
    assert!(d.health_passed);
    assert_eq!(d.unsafe_shutdowns, Some(12));
    assert_eq!(d.temperature, Some(30_000));
    let e = json(r#"{"ata_smart_attributes": {"table": [{"name": "Unexpect_Power_Loss_Ct", "raw": {"value": 5}}]}}"#);
    assert_eq!(e.unsafe_shutdowns, Some(5));
    assert_eq!(e.temperature, None);
}

#[test]
fn smartctl_output_is_rejected_when_blank_or_failed_non_json() {
    assert!(SmartHealth::parse_smartctl_output(b"   \n", true, "/dev/sda").is_none());
    assert!(SmartHealth::parse_smartctl_output(b"error: no such device", false, "/dev/sda").is_none());
    let ok = SmartHealth::parse_smartctl_output(b"plain text", true, "/dev/sda").unwrap();
    assert_eq!(ok.temperature, None);
    assert!(!ok.health_passed);
    let invalid_utf8 = b"\xff{\"temperature\": 33}";
    let d = SmartHealth::parse_smartctl_output(invalid_utf8, true, "/dev/sda").unwrap();
    assert_eq!(d.temperature, Some(33_000));
}

#[test]
fn text_table_takes_value_after_dash_column() {
    let out = b"194 Temperature_Celsius 0x0022 029 053 000 Old_age Always - +31.5 (x)\n";
    let d = SmartHealth::parse_smartctl_text_output(out, "/dev/sdc", None).unwrap();
    assert_eq!(d.temperature, Some(31_500));
    assert!(d.health_passed);
    let hot = b"194 Temperature_Celsius 0x0022 029 053 000 Old_age Always - 200\n";
    assert!(SmartHealth::parse_smartctl_text_output(hot, "/dev/sdc", None).is_none());
    let no_dash = b"194 Temperature_Celsius 0x0022 029 053 000 Old_age Always 29\n";
    assert!(SmartHealth::parse_smartctl_text_output(no_dash, "/dev/sdc", None).is_none());
    let internal = b"190 Temperature_Internal 0x0022 - 35\r\n";
    let d = SmartHealth::parse_smartctl_text_output(internal, "/dev/sdc", None).unwrap();
    assert_eq!(d.temperature, Some(35_000));
}

#[test]
fn lsblk_lists_disks_only() {
    let out = b"sda disk\nsda1 part\nnvme0n1   disk\nsr0 rom\n\n";
    assert_eq!(
        SmartHealth::parse_lsblk_disks(out),
        vec!["/dev/sda".to_string(), "/dev/nvme0n1".to_string()]
    );
    assert!(SmartHealth::parse_lsblk_disks(b"").is_empty());
}

#[test]
fn health_from_devices_is_available_when_any_answered() {
    assert!(!SmartHealth::from_devices(Vec::new()).available);
    let d = json(r#"{"passed": true}"#);
    assert!(SmartHealth::from_devices(vec![d]).available);
}

#[test]
fn device_names_lose_every_dev_prefix() {
    assert_eq!(normalize_device_name("/dev/sda"), "sda");
    assert_eq!(normalize_device_name("/dev//dev/sdb"), "sdb");
    assert_eq!(normalize_device_name("/dev/dev/sdb"), "dev/sdb");
    assert_eq!(normalize_device_name("/dev//dev/"), "");
    assert_eq!(normalize_device_name("/dev//dev/".trim_end_matches('/')), "/dev");
    assert_eq!(normalize_device_name("/dev/dev/"), "dev/");
    assert_eq!(normalize_device_name("nvme0"), "nvme0");
    assert_eq!(normalize_device_name("/dev/dev/dev/"), "dev/dev/");
}

fn run(stdout: &str, success: bool) -> Option<SmartctlOutput> {
    Some(SmartctlOutput { stdout: stdout.as_bytes().to_vec(), success })
}

fn expect_run(step: DeviceStep, query: SmartctlQuery) -> DeviceRead {
    match step {
        DeviceStep::Run(read, q) => {
            assert_eq!(q, query);
            read
        }
        DeviceStep::Done(_) => panic!("expected another run"),
    }
}

fn expect_done(step: DeviceStep) -> Option<SmartDevice> {
    match step {
        DeviceStep::Done(d) => d,
        DeviceStep::Run(..) => panic!("expected the end of the read"),
    }
}

#[test]
fn device_read_stops_when_json_has_temperature() {
    let (read, q) = DeviceRead::start("/dev/sda");
    assert_eq!(q, SmartctlQuery::Json);
    assert_eq!(
        q.args("/dev/sda"),
        vec!["-a".to_string(), "-j".to_string(), "/dev/sda".to_string()]
    );
    let d = expect_done(read.advance(run(r#"{"temperature": {"current": 40}}"#, true))).unwrap();
    assert_eq!(d.temperature, Some(40_000));
}

#[test]
fn device_read_falls_back_through_sat_and_attribute_tables() {
    let (read, _) = DeviceRead::start("/dev/sda");
    let read = expect_run(read.advance(run(r#"{"passed": true}"#, true)), SmartctlQuery::JsonSat);
    assert!(matches!(read.stage, DeviceStage::JsonSat(Some(_))));
    let read = expect_run(read.advance(run("", false)), SmartctlQuery::Attributes);
    let read = expect_run(read.advance(run("no table", true)), SmartctlQuery::AttributesSat);
    assert_eq!(
        SmartctlQuery::AttributesSat.args("/dev/sda"),
        vec!["-A".to_string(), "-d".to_string(), "sat".to_string(), "/dev/sda".to_string()]
    );
    let table = "194 Temperature_Celsius 0x0022 029 053 000 Old_age Always - 29\n";
    let d = expect_done(read.advance(run(table, true))).unwrap();
    assert!(d.health_passed);
    assert_eq!(d.temperature, Some(29_000));
}

#[test]
fn device_read_keeps_report_without_temperature() {
    let (read, _) = DeviceRead::start("/dev/nvme0");
    let d = expect_done(read.advance(run(r#"{"passed": true}"#, true))).unwrap();
    assert_eq!(d.temperature, None);
    let (read, _) = DeviceRead::start("/dev/sdb");
    assert!(expect_done(read.advance(None)).is_none());
    let (read, _) = DeviceRead::start("/dev/sdb");
    let read = expect_run(read.advance(run(r#"{"passed": true}"#, true)), SmartctlQuery::JsonSat);
    let read = expect_run(read.advance(None), SmartctlQuery::Attributes);
    let read = expect_run(read.advance(None), SmartctlQuery::AttributesSat);
    let d = expect_done(read.advance(None)).unwrap();
    assert!(d.health_passed);
    assert_eq!(d.temperature, None);
}

#[test]
fn smart_access_needs_root_or_sudo() {
    assert!(!SmartHealth::smart_access(false, false));
    assert!(SmartHealth::smart_access(true, false));
    assert!(SmartHealth::smart_access(false, true));
    assert!(SmartHealth::smart_access(true, true));
}
