use std::collections::VecDeque;

use slow_rs::recommendations::{
    build_recommendations, generate_recommendations, severity_rank, sort_by_severity,
    unsafe_shutdown_recommendation, Metrics, Recommendation,
};
use slow_rs::thresholds::{Severity, Thresholds};

fn baseline_metrics() -> Metrics {
    Metrics {
        mem_available_mb: 8192,
        cpu_idle: 100,
        ..Metrics::default()
    }
}

fn titles(metrics: &Metrics) -> Vec<String> {
    generate_recommendations(metrics, &Thresholds::default())
        .into_iter()
        .map(|r| r.title)
        .collect()
}

#[test]
fn healthy_metrics_have_no_recommendations() {
    assert!(generate_recommendations(&baseline_metrics(), &Thresholds::default()).is_empty());
}

#[test]
fn pressure_memory_and_cpu_recommendations_are_generated_and_sorted() {
    let mut metrics = baseline_metrics();
    metrics.io_pressure_some_avg10 = Some(3000);
    metrics.mem_pressure_some_avg10 = Some(1200);
    metrics.pswpout = 3;
    metrics.mem_available_mb = 128;
    metrics.cpu_usage_percent = 9900;

    let recommendations = generate_recommendations(&metrics, &Thresholds::default());

    assert!(recommendations.iter().any(|r| r.title == "High I/O Pressure"));
    assert!(recommendations.iter().any(|r| r.title == "Memory Pressure Detected"));
    assert!(recommendations.iter().any(|r| r.title == "Swap Activity"));
    assert!(recommendations.iter().any(|r| r.title == "Critically Low Memory"));
    assert!(recommendations
        .iter()
        .any(|r| { r.title == "High CPU Usage" && r.severity == Severity::Warning }));
    assert_eq!(recommendations.first().unwrap().severity, Severity::Critical);
}

#[test]
fn thermal_and_storage_recommendations_cover_warning_paths() {
    let mut metrics = baseline_metrics();
    metrics.cpu_temp_millicelsius = Some(76_000);
    metrics.dimm_temp_max = Some(71_000);
    metrics.disk_temp_max = Some(51_000);
    metrics.cpu_user = 10;
    metrics.cpu_system = 10;
    metrics.cpu_idle = 60;
    metrics.cpu_iowait = 20;
    metrics.pgmajfault = 101;
    metrics.dirty_mb = 2048;

    let titles = titles(&metrics);

    assert!(titles.contains(&"CPU Running Hot".to_string()));
    assert!(titles.contains(&"RAM Running Warm".to_string()));
    assert!(titles.contains(&"Disk Running Hot".to_string()));
    assert!(titles.contains(&"High I/O Wait".to_string()));
    assert!(titles.contains(&"High Major Faults".to_string()));
    assert!(titles.contains(&"High Dirty Pages".to_string()));
}

fn sample(uptime_centisecs: u64, unsafe_total: Option<u64>) -> Metrics {
    Metrics {
        uptime_centisecs,
        smart_unsafe_shutdowns_total: unsafe_total,
        ..baseline_metrics()
    }
}

fn history(samples: Vec<Metrics>) -> VecDeque<Metrics> {
    samples.into_iter().collect()
}

#[test]
fn unsafe_shutdown_is_quiet_when_counter_is_flat() {
    let hist = history(vec![
        sample(10_000, Some(44)),
        sample(10_500, Some(44)),
        sample(11_000, Some(44)),
    ]);

    assert!(unsafe_shutdown_recommendation(&hist).is_none());
}

#[test]
fn unsafe_shutdown_flags_increase_without_reboot() {
    let hist = history(vec![
        sample(10_000, Some(44)),
        sample(10_500, Some(44)),
        sample(11_000, Some(45)),
    ]);

    let rec = unsafe_shutdown_recommendation(&hist).expect("should flag a rising counter");
    assert_eq!(rec.title, "NVMe Reset Detected");
    assert_eq!(rec.severity, Severity::Warning);
    assert!(rec.advice.starts_with("1 unsafe shutdown(s)"));
}

#[test]
fn unsafe_shutdown_ignores_increase_explained_by_reboot() {
    // Uptime drops at the third sample, so the machine rebooted. The counter
    // bump across that boundary is expected and must not be flagged.
    let hist = history(vec![
        sample(90_000, Some(44)),
        sample(90_500, Some(44)),
        sample(500, Some(45)),
        sample(1_000, Some(45)),
    ]);

    assert!(unsafe_shutdown_recommendation(&hist).is_none());
}

#[test]
fn build_recommendations_includes_history_aware_checks() {
    let hist = history(vec![sample(10_000, Some(44)), sample(10_500, Some(46))]);

    let recs = build_recommendations(&hist, &Thresholds::default());
    assert!(recs.iter().any(|r| r.title == "NVMe Reset Detected"));
}

#[test]
fn ipmi_dimm_status_recommendations_use_status_severity() {
    let mut metrics = baseline_metrics();
    metrics.ipmi_dimm_status = Some("nr".to_string());
    metrics.ipmi_dimm_details = Some("DIMMA1:99C[NR!]".to_string());
    let recommendations = generate_recommendations(&metrics, &Thresholds::default());
    assert!(recommendations
        .iter()
        .any(|r| r.title == "DIMM NON-RECOVERABLE" && r.severity == Severity::Critical));

    metrics.ipmi_dimm_status = Some("nc".to_string());
    metrics.ipmi_dimm_details = None;
    let recommendations = generate_recommendations(&metrics, &Thresholds::default());
    assert!(recommendations
        .iter()
        .any(|r| r.title == "DIMM Warning" && r.severity == Severity::Warning));
}

fn advice_for(metrics: &Metrics, title: &str) -> String {
    generate_recommendations(metrics, &Thresholds::default())
        .into_iter()
        .find(|r| r.title == title)
        .map(|r| r.advice)
        .unwrap_or_default()
}

#[test]
fn advice_texts_carry_exact_values() {
    let mut m = baseline_metrics();
    m.pswpin = 7;
    m.pswpout = 12;
    m.mem_available_mb = 1000;
    m.cpu_temp_millicelsius = Some(90_400);
    m.dimm_temp_max = Some(85_000);
    m.disk_temp_max = Some(65_600);
    m.cpu_usage_percent = 8450;
    m.pgmajfault = 250;
    m.dirty_mb = 1500;
    assert_eq!(advice_for(&m, "Swap Activity"), "Swapping in:7 out:12. Check: ps aux --sort=-%mem");
    assert_eq!(advice_for(&m, "Low Available Memory"), "1000 MB available. Monitor memory usage closely");
    assert_eq!(
        advice_for(&m, "CPU Overheating"),
        "CPU at 90C. Check cooling, clean dust, verify thermal paste"
    );
    assert_eq!(advice_for(&m, "RAM Overheating"), "DIMM at 85C. Check case airflow, consider RAM cooling");
    assert_eq!(advice_for(&m, "Disk Overheating"), "Disk at 66C. Check cooling, may cause data loss");
    assert_eq!(
        advice_for(&m, "High CPU Usage"),
        "CPU at 84%. Check: top, htop for CPU-intensive processes"
    );
    assert_eq!(
        advice_for(&m, "High Major Faults"),
        "250 major faults. System may be thrashing. Add RAM or reduce load"
    );
    assert_eq!(advice_for(&m, "High Dirty Pages"), "1500 MB waiting to be written. I/O may be backed up");
    m.mem_available_mb = 100;
    assert_eq!(
        advice_for(&m, "Critically Low Memory"),
        "Only 100 MB available. Kill processes or add RAM immediately"
    );
}

#[test]
fn whole_number_display_matches_float_formatting() {
    // `{:.0}` rounds halves to even; the fixed-point display does the same.
    assert_eq!(format!("{:.0}", 76.5f64), "76");
    assert_eq!(format!("{:.0}", 77.5f64), "78");
    assert_eq!(format!("{:.0}", 84.5f32), "84");
    let mut m = baseline_metrics();
    m.cpu_temp_millicelsius = Some(76_500);
    assert_eq!(advice_for(&m, "CPU Running Hot"), "CPU at 76C. Consider improving cooling");
    m.cpu_temp_millicelsius = Some(77_500);
    assert_eq!(advice_for(&m, "CPU Running Hot"), "CPU at 78C. Consider improving cooling");
    m.cpu_usage_percent = 8450;
    assert_eq!(
        advice_for(&m, "High CPU Usage"),
        "CPU at 84%. Check: top, htop for CPU-intensive processes"
    );
}

#[test]
fn iowait_share_is_exact_and_rounded_for_display() {
    let mut m = baseline_metrics();
    m.cpu_user = 0;
    m.cpu_system = 0;
    m.cpu_idle = 3;
    m.cpu_iowait = 1;
    assert_eq!(
        advice_for(&m, "High I/O Wait"),
        "25% CPU waiting for I/O. Disk may be bottleneck"
    );
    m.cpu_idle = 1;
    assert_eq!(
        advice_for(&m, "Severe I/O Wait"),
        "50% CPU waiting for I/O. Disk is severe bottleneck"
    );
    m.cpu_idle = 4;
    assert!(advice_for(&m, "High I/O Wait").starts_with("20%"));
    m.cpu_idle = 0;
    m.cpu_iowait = 0;
    assert!(titles(&m).is_empty());
}

#[test]
fn critical_recommendations_come_first_and_order_is_stable() {
    let mut m = baseline_metrics();
    m.pswpin = 1;
    m.io_pressure_some_avg10 = Some(1500);
    m.mem_available_mb = 10;
    m.ipmi_dimm_status = Some("cr".to_string());
    let recs = generate_recommendations(&m, &Thresholds::default());
    let got: Vec<&str> = recs.iter().map(|r| r.title.as_str()).collect();
    assert_eq!(
        got,
        vec!["Critically Low Memory", "DIMM CRITICAL", "Elevated I/O Pressure", "Swap Activity"]
    );
    let ranks: Vec<u8> = recs.iter().map(|r| severity_rank(r.severity)).collect();
    assert_eq!(ranks, vec![0, 0, 1, 1]);
    assert_eq!(severity_rank(Severity::Normal), 2);
}

#[test]
fn sorting_keeps_each_severity_in_order() {
    let rec = |severity, title: &str| Recommendation {
        severity,
        title: title.to_string(),
        advice: String::new(),
    };
    let sorted = sort_by_severity(vec![
        rec(Severity::Normal, "n1"),
        rec(Severity::Warning, "w1"),
        rec(Severity::Critical, "c1"),
        rec(Severity::Warning, "w2"),
        rec(Severity::Critical, "c2"),
    ]);
    let got: Vec<&str> = sorted.iter().map(|r| r.title.as_str()).collect();
    assert_eq!(got, vec!["c1", "c2", "w1", "w2", "n1"]);
}

#[test]
fn unsafe_shutdown_advice_and_baseline() {
    let hist = history(vec![
        sample(90_000, Some(40)),
        sample(500, Some(44)),
        sample(800, Some(44)),
        sample(900, Some(47)),
    ]);
    let rec = unsafe_shutdown_recommendation(&hist).unwrap();
    assert_eq!(
        rec.advice,
        "3 unsafe shutdown(s) with no reboot: controller reset itself. Check: dmesg | grep -i nvme. Try nvme_core.default_ps_max_latency_us=0 (APST), then firmware update; RMA if it recurs"
    );
    let missing_baseline = history(vec![sample(100, None), sample(200, Some(5))]);
    assert!(unsafe_shutdown_recommendation(&missing_baseline).is_none());
    let missing_latest = history(vec![sample(100, Some(1)), sample(200, None)]);
    assert!(unsafe_shutdown_recommendation(&missing_latest).is_none());
    let dropping = history(vec![sample(100, Some(9)), sample(200, Some(5))]);
    assert!(unsafe_shutdown_recommendation(&dropping).is_none());
    assert!(unsafe_shutdown_recommendation(&VecDeque::new()).is_none());
}

#[test]
fn build_recommendations_sorts_history_check_with_the_rest() {
    assert!(build_recommendations(&VecDeque::new(), &Thresholds::default()).is_empty());
    let mut latest = sample(10_500, Some(46));
    latest.mem_available_mb = 10;
    latest.pswpin = 2;
    let hist = history(vec![sample(10_000, Some(44)), latest]);
    let recs = build_recommendations(&hist, &Thresholds::default());
    let got: Vec<&str> = recs.iter().map(|r| r.title.as_str()).collect();
    assert_eq!(got, vec!["Critically Low Memory", "Swap Activity", "NVMe Reset Detected"]);
    assert!(recs[2].advice.starts_with("2 unsafe shutdown(s)"));
}

#[test]
fn io_pressure_titles_match_their_severity_once() {
    for (io, high, elevated) in [(None, 0, 0), (Some(500), 0, 0), (Some(1000), 0, 1), (Some(2500), 1, 0)] {
        let mut m = baseline_metrics();
        m.io_pressure_some_avg10 = io;
        let recs = generate_recommendations(&m, &Thresholds::default());
        let count = |title: &str| recs.iter().filter(|r| r.title == title).count();
        assert_eq!(count("High I/O Pressure"), high);
        assert_eq!(count("Elevated I/O Pressure"), elevated);
        for r in &recs {
            if r.title == "High I/O Pressure" {
                assert_eq!(r.severity, Severity::Critical);
            }
            if r.title == "Elevated I/O Pressure" {
                assert_eq!(r.severity, Severity::Warning);
            }
        }
    }
}

#[test]
fn low_memory_titles_follow_memory_severity() {
    for (mb, critical, low) in [(8192u64, 0, 0), (1024, 0, 1), (257, 0, 1), (256, 1, 0), (0, 1, 0)] {
        let mut m = baseline_metrics();
        m.mem_available_mb = mb;
        let recs = generate_recommendations(&m, &Thresholds::default());
        let critical_recs: Vec<&Recommendation> =
            recs.iter().filter(|r| r.title == "Critically Low Memory").collect();
        let low_recs: Vec<&Recommendation> =
            recs.iter().filter(|r| r.title == "Low Available Memory").collect();
        assert_eq!(critical_recs.len(), critical);
        assert_eq!(low_recs.len(), low);
        for r in critical_recs {
            assert_eq!(r.severity, Severity::Critical);
            assert_eq!(r.advice, format!("Only {} MB available. Kill processes or add RAM immediately", mb));
        }
        for r in low_recs {
            assert_eq!(r.severity, Severity::Warning);
            assert_eq!(r.advice, format!("{} MB available. Monitor memory usage closely", mb));
        }
    }
}

fn with_title<'a>(recs: &'a [Recommendation], title: &str) -> Vec<&'a Recommendation> {
    recs.iter().filter(|r| r.title == title).collect()
}

#[test]
fn idle_cpu_sample_reports_no_iowait() {
    let mut m = baseline_metrics();
    m.cpu_idle = 0;
    let recs = generate_recommendations(&m, &Thresholds::default());
    assert!(with_title(&recs, "Severe I/O Wait").is_empty());
    assert!(with_title(&recs, "High I/O Wait").is_empty());
    assert!(recs.is_empty());
}

#[test]
fn major_faults_dirty_pages_and_swap_follow_their_triggers() {
    let t = Thresholds::default();
    let mut m = baseline_metrics();
    m.pgmajfault = 100;
    m.dirty_mb = 1024;
    let recs = generate_recommendations(&m, &t);
    assert!(with_title(&recs, "High Major Faults").is_empty());
    assert!(with_title(&recs, "High Dirty Pages").is_empty());
    assert!(with_title(&recs, "Swap Activity").is_empty());

    m.pgmajfault = 101;
    m.dirty_mb = 1025;
    m.pswpout = 3;
    let recs = generate_recommendations(&m, &t);
    let faults = with_title(&recs, "High Major Faults");
    assert_eq!(faults.len(), 1);
    assert_eq!(faults[0].severity, Severity::Warning);
    assert_eq!(
        faults[0].advice,
        "101 major faults. System may be thrashing. Add RAM or reduce load"
    );
    let dirty = with_title(&recs, "High Dirty Pages");
    assert_eq!(dirty.len(), 1);
    assert_eq!(dirty[0].severity, Severity::Warning);
    assert_eq!(dirty[0].advice, "1025 MB waiting to be written. I/O may be backed up");
    let swap = with_title(&recs, "Swap Activity");
    assert_eq!(swap.len(), 1);
    assert_eq!(swap[0].severity, Severity::Warning);
    assert_eq!(swap[0].advice, "Swapping in:0 out:3. Check: ps aux --sort=-%mem");

    m.pswpout = 0;
    m.pswpin = 7;
    let recs = generate_recommendations(&m, &t);
    let swap = with_title(&recs, "Swap Activity");
    assert_eq!(swap.len(), 1);
    assert_eq!(swap[0].advice, "Swapping in:7 out:0. Check: ps aux --sort=-%mem");
}

#[test]
fn dimm_status_maps_to_one_recommendation() {
    let t = Thresholds::default();
    let dimm_titles = ["DIMM NON-RECOVERABLE", "DIMM CRITICAL", "DIMM Warning"];
    let cases = [
        ("nr", Severity::Critical, "DIMM NON-RECOVERABLE", ". Check BMC logs: sudo ipmitool sel list"),
        ("cr", Severity::Critical, "DIMM CRITICAL", ". Check cooling immediately"),
        ("nc", Severity::Warning, "DIMM Warning", ". Monitor closely"),
    ];
    for (status, severity, title, tail) in cases {
        for details in [Some("DIMMA1:85C[CR!]"), None] {
            let mut m = baseline_metrics();
            m.ipmi_dimm_status = Some(status.to_string());
            m.ipmi_dimm_details = details.map(|d| d.to_string());
            let recs = generate_recommendations(&m, &t);
            assert_eq!(recs.len(), 1);
            assert_eq!(recs[0].title, title);
            assert_eq!(recs[0].severity, severity);
            let start = details.unwrap_or("Check: sudo ipmitool sensor list | grep -i dimm");
            assert_eq!(recs[0].advice, format!("{}{}", start, tail));
        }
    }
    for status in [Some("ok"), Some("ns"), Some("NR"), None] {
        let mut m = baseline_metrics();
        m.ipmi_dimm_status = status.map(|s| s.to_string());
        m.ipmi_dimm_details = Some("DIMMA1:40C".to_string());
        let recs = generate_recommendations(&m, &t);
        assert!(recs.iter().all(|r| !dimm_titles.contains(&r.title.as_str())));
    }
}

#[test]
fn recommendations_are_urgent_sorted_and_stable() {
    let mut m = baseline_metrics();
    m.pgmajfault = 500;
    m.io_pressure_some_avg10 = Some(1500);
    m.dirty_mb = 2000;
    m.mem_available_mb = 100;
    m.ipmi_dimm_status = Some("cr".to_string());
    let recs = generate_recommendations(&m, &Thresholds::default());
    assert!(recs.iter().all(|r| r.severity != Severity::Normal));
    for w in recs.windows(2) {
        assert!(severity_rank(w[0].severity) <= severity_rank(w[1].severity));
    }
    let warnings: Vec<&str> = recs
        .iter()
        .filter(|r| r.severity == Severity::Warning)
        .map(|r| r.title.as_str())
        .collect();
    assert_eq!(warnings, vec!["Elevated I/O Pressure", "High Major Faults", "High Dirty Pages"]);
    let critical: Vec<&str> = recs
        .iter()
        .filter(|r| r.severity == Severity::Critical)
        .map(|r| r.title.as_str())
        .collect();
    assert_eq!(critical, vec!["Critically Low Memory", "DIMM CRITICAL"]);
    assert_eq!(recs.len(), 5);
}
