use debloater::package_stream::{store_packages, start_package_stream, PackageCache, StreamStart};
use debloater::system_health::{
    clear_health_cache, monitor_interval_ms, monitor_should_collect, parse_app_counts,
    parse_memory, parse_services_count, parse_storage, thermal_status, HealthCache, Metric,
    MetricValue, StorageInfo,
};

#[test]
fn storage_line_scenario() {
    let s = parse_storage("/dev/x 1048576 524288 524288 50% /data").unwrap();
    assert_eq!((s.total_mb, s.used_mb, s.free_mb), (1024, 512, 512));
    let (part, whole) = s.usage_ratio();
    assert_eq!(part as f32 / whole as f32 * 100.0, 50.0);
    assert!(parse_storage("too few cols").is_none());
    let z = parse_storage("fs x y z").unwrap();
    assert_eq!(z.usage_ratio(), (0, 1));
}

#[test]
fn memory_report() {
    let out = "MemTotal:        8000000 kB\nMemFree: 100 kB\nMemAvailable:    2048000 kB\nBuffers: 10240 kB\nCached: 2048 kB\nBad: line: here\n";
    let m = parse_memory(out);
    assert_eq!(m.total_mb, 7812);
    assert_eq!(m.available_mb, 2000);
    assert_eq!(m.used_mb, 5812);
    assert_eq!(m.buffers_mb, 10);
    assert_eq!(m.cached_mb, 2);
    let empty = parse_memory("");
    assert_eq!(empty.usage_ratio(), (0, 1));
}

#[test]
fn counts() {
    assert_eq!(parse_services_count(" 120\n"), 119);
    assert_eq!(parse_services_count("0"), 0);
    assert_eq!(parse_services_count("junk"), 0);
    let c = parse_app_counts("100\n", "  25 ");
    assert_eq!((c.system_apps, c.user_apps, c.total_apps), (100, 25, 125));
    let big = parse_app_counts("4294967295", "1");
    assert_eq!(big.total_apps, u32::MAX);
}

#[test]
fn thermal_keywords_by_priority() {
    let t = thermal_status("Thermal Status: SEVERE\nstatus NORMAL");
    assert_eq!(t.status, "severe");
    assert!(t.throttling);
    assert_eq!(thermal_status("Emergency").status, "critical");
    assert_eq!(thermal_status("Throttling: yes").status, "moderate");
    let n = thermal_status("status: None");
    assert_eq!(n.status, "normal");
    assert!(!n.throttling);
    assert_eq!(thermal_status("").status, "unknown");
}

#[test]
fn monitor_rules() {
    assert_eq!(monitor_interval_ms(10), 1000);
    assert_eq!(monitor_interval_ms(2500), 2500);
    assert!(monitor_should_collect("device\n"));
    assert!(!monitor_should_collect("offline"));
}

fn storage(mb: u64) -> Option<MetricValue> {
    Some(MetricValue::Storage(StorageInfo { total_mb: mb, used_mb: 0, free_mb: mb }))
}

#[test]
fn pass_updates_stale_slots_only() {
    let mut cache = HealthCache::new();
    let mut pass = cache.begin_pass("D1".to_string(), 77);
    let ev = cache.resolve(&mut pass, storage(100), 1_000);
    assert_eq!(ev.metrics_updated, vec!["storage".to_string()]);
    assert!(!ev.is_complete);
    assert_eq!(ev.health.storage.total_mb, 100);
    assert_eq!(ev.health.timestamp, 77);
    assert_eq!(ev.health.device_id, "D1");
    let ev = cache.resolve(&mut pass, None, 1_000);
    assert_eq!(ev.metrics_updated, vec!["storage".to_string()]);
    for _ in 0..4 {
        cache.resolve(&mut pass, None, 1_000);
    }
    let last = cache.resolve(&mut pass, Some(MetricValue::Battery(Vec::new())), 1_000);
    assert!(last.is_complete);
    assert_eq!(last.metrics_updated, vec!["storage".to_string(), "battery".to_string()]);

    let mut pass = cache.begin_pass("D1".to_string(), 78);
    assert!(!cache.metric_is_stale(Metric::Storage, 3_999));
    assert!(cache.metric_is_stale(Metric::Storage, 4_000));
    let ev = cache.resolve(&mut pass, storage(5), 3_999);
    assert!(ev.metrics_updated.is_empty());
    assert_eq!(ev.health.storage.total_mb, 100);
}

#[test]
fn failed_metric_keeps_previous_value() {
    let mut cache = HealthCache::new();
    let mut pass = cache.begin_pass("D1".to_string(), 1);
    cache.resolve(&mut pass, storage(100), 0);
    let mut pass = cache.begin_pass("D1".to_string(), 2);
    let ev = cache.resolve(&mut pass, None, 3_001);
    assert!(ev.metrics_updated.is_empty());
    assert_eq!(ev.health.storage.total_mb, 100);
    let ev = cache.resolve(&mut pass, storage(1), 3_001);
    assert!(ev.metrics_updated.is_empty());
}

#[test]
fn device_switch_invalidates_everything() {
    let mut cache = HealthCache::new();
    let mut pass = cache.begin_pass("D1".to_string(), 1);
    cache.resolve(&mut pass, storage(100), 0);
    let mut packages = PackageCache::new();
    store_packages(&mut packages, "D1".to_string(), Vec::new(), 0);

    let mut pass = cache.begin_pass("D2".to_string(), 2);
    for m in [Metric::Storage, Metric::Memory, Metric::Cpu, Metric::Services, Metric::AppCounts, Metric::Thermal, Metric::Battery] {
        assert!(cache.metric_is_stale(m, 1));
    }
    let ev = cache.resolve(&mut pass, None, 1);
    assert_eq!(ev.health.storage.total_mb, 0);
    assert!(matches!(start_package_stream(&packages, "D2", false, 1), StreamStart::Fetch(_)));

    clear_health_cache(&mut cache);
    assert!(cache.metric_is_stale(Metric::Memory, 0));
}
