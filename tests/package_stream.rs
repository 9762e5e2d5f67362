use debloater::package_stream::{
    clear_package_cache, get_cache_status, get_cached_packages, replay_events,
    start_package_stream, store_packages, stream_device_serial, stream_error_event, PackageCache,
    PackageStream, StreamEvent, StreamStart, StreamedPackage,
};

fn run_pass(lines: &[String]) -> (Vec<StreamEvent>, Vec<StreamedPackage>) {
    let (mut stream, first) = PackageStream::new();
    let mut events = vec![first];
    for line in lines {
        events.extend(stream.on_line(line));
    }
    let (closing, sorted) = stream.finish(true, 42).unwrap();
    events.extend(closing);
    (events, sorted)
}

fn chunk_names(events: &[StreamEvent]) -> Vec<String> {
    let mut names = Vec::new();
    for e in events {
        if let StreamEvent::Chunk(c) = e {
            for p in &c.packages {
                names.push(p.package_name.clone());
            }
        }
    }
    names
}

#[test]
fn scenario_three_packages_sorted_with_levels() {
    let lines: Vec<String> = "package:com.facebook.katana\npackage:com.google.android.apps.maps\npackage:com.android.systemui\n"
        .split('\n')
        .map(|s| s.to_string())
        .collect();
    let (events, sorted) = run_pass(&lines);
    let got: Vec<(String, String)> = sorted
        .iter()
        .map(|p| (p.package_name.clone(), p.safety_level.clone()))
        .collect();
    assert_eq!(
        got,
        vec![
            ("com.android.systemui".to_string(), "Dangerous".to_string()),
            ("com.facebook.katana".to_string(), "Caution".to_string()),
            ("com.google.android.apps.maps".to_string(), "Safe".to_string()),
        ]
    );
    assert_eq!(
        chunk_names(&events),
        vec!["com.facebook.katana", "com.google.android.apps.maps", "com.android.systemui"]
    );
    match &events[1] {
        StreamEvent::Chunk(c) => {
            assert!(c.is_final);
            assert_eq!(c.chunk_index, 0);
            assert_eq!(c.total_so_far, 3);
        }
        _ => panic!("expected the final batch"),
    }
    match &events[2] {
        StreamEvent::Complete(c) => {
            assert_eq!(c.total_packages, 3);
            assert_eq!(c.duration_ms, 42);
            assert!(!c.from_cache);
        }
        _ => panic!("expected completion"),
    }
    match &events[3] {
        StreamEvent::Progress(p) => {
            assert_eq!(p.status, "Loaded 3 packages");
            assert!(p.is_complete);
        }
        _ => panic!("expected progress"),
    }
}

#[test]
fn batches_cover_the_sorted_list() {
    let lines: Vec<String> = (0..75).rev().map(|i| format!("package:pkg.n{:03}", i)).collect();
    let (events, sorted) = run_pass(&lines);
    let mut from_batches = chunk_names(&events);
    assert_eq!(from_batches.len(), 75);
    let mut indices = Vec::new();
    for e in &events {
        if let StreamEvent::Chunk(c) = e {
            indices.push((c.chunk_index, c.packages.len(), c.total_so_far, c.is_final));
        }
    }
    assert_eq!(indices, vec![(0, 30, 30, false), (1, 30, 60, false), (2, 15, 75, true)]);
    assert_eq!(from_batches[0], "pkg.n074");
    let sorted_names: Vec<String> = sorted.iter().map(|p| p.package_name.clone()).collect();
    assert_eq!(sorted_names[0], "pkg.n000");
    from_batches.sort();
    assert_eq!(from_batches, sorted_names);
}

#[test]
fn lines_without_package_are_ignored() {
    let (mut stream, _) = PackageStream::new();
    assert!(stream.on_line("garbage").is_empty());
    assert!(stream.on_line("package:   ").is_empty());
    assert!(stream.on_line("package: com.x.y \r").is_empty());
    assert_eq!(stream.all.len(), 1);
    assert_eq!(stream.all[0].package_name, "com.x.y");
    assert_eq!(stream.all[0].app_name, "Y");
}

#[test]
fn failed_pass_reports_error() {
    let (stream, _) = PackageStream::new();
    assert_eq!(stream.finish(false, 1).unwrap_err(), "ADB command failed");
    match stream_error_event("boom".to_string()) {
        StreamEvent::Progress(p) => {
            assert_eq!(p.status, "Error loading packages");
            assert_eq!(p.error, Some("boom".to_string()));
            assert!(p.is_complete);
        }
        _ => panic!("expected progress"),
    }
}

#[test]
fn second_start_within_ttl_replays_from_cache() {
    let mut cache = PackageCache::new();
    match start_package_stream(&cache, "S1", false, 1_000) {
        StreamStart::Fetch(args) => {
            assert_eq!(args, vec!["-s", "S1", "shell", "pm", "list", "packages", "-a"])
        }
        StreamStart::Replay(_) => panic!("nothing cached yet"),
    }
    let lines: Vec<String> = (0..31).map(|i| format!("package:a.b{}", i)).collect();
    let (_, sorted) = run_pass(&lines);
    store_packages(&mut cache, "S1".to_string(), sorted, 2_000);
    match start_package_stream(&cache, "S1", false, 301_999) {
        StreamStart::Replay(events) => {
            assert_eq!(events.len(), 5);
            match &events[3] {
                StreamEvent::Complete(c) => {
                    assert!(c.from_cache);
                    assert_eq!(c.total_packages, 31);
                    assert_eq!(c.duration_ms, 0);
                }
                _ => panic!("expected completion"),
            }
            match &events[2] {
                StreamEvent::Chunk(c) => {
                    assert_eq!((c.chunk_index, c.total_so_far, c.is_final), (1, 31, true));
                }
                _ => panic!("expected a batch"),
            }
            match &events[4] {
                StreamEvent::Progress(p) => assert_eq!(p.status, "Loaded 31 packages (cached)"),
                _ => panic!("expected progress"),
            }
        }
        StreamStart::Fetch(_) => panic!("should replay"),
    }
    assert!(matches!(start_package_stream(&cache, "S1", false, 302_000), StreamStart::Fetch(_)));
    assert!(matches!(start_package_stream(&cache, "S1", true, 2_001), StreamStart::Fetch(_)));
    assert!(matches!(start_package_stream(&cache, "S2", false, 2_001), StreamStart::Fetch(_)));
}

#[test]
fn replay_of_exact_batches() {
    let lines: Vec<String> = (0..60).map(|i| format!("package:q{}", i)).collect();
    let (_, sorted) = run_pass(&lines);
    let events = replay_events(&sorted);
    assert_eq!(events.len(), 5);
    match &events[2] {
        StreamEvent::Chunk(c) => assert_eq!((c.chunk_index, c.total_so_far, c.is_final), (1, 60, true)),
        _ => panic!("expected a batch"),
    }
    assert_eq!(replay_events(&Vec::new()).len(), 3);
}

#[test]
fn cache_queries() {
    let mut cache = PackageCache::new();
    assert_eq!(get_cached_packages(&cache).unwrap_err(), "No cached packages available");
    assert!(!get_cache_status(&cache, 0).has_cache);
    let (_, sorted) = run_pass(&["package:x.y".to_string()]);
    store_packages(&mut cache, "D".to_string(), sorted, 1_000);
    let status = get_cache_status(&cache, 302_500);
    assert!(status.has_cache);
    assert_eq!(status.package_count, 1);
    assert_eq!(status.device_serial, Some("D".to_string()));
    assert_eq!(status.age_seconds, 301);
    assert!(status.is_expired);
    assert_eq!(get_cached_packages(&cache).unwrap()[0].package_name, "x.y");
    clear_package_cache(&mut cache);
    assert!(cache.entry.is_none());
}

#[test]
fn stream_serial_is_first_ready_device() {
    assert_eq!(
        stream_device_serial("List of devices attached\nA offline\nB device\nC device\n".to_string()).unwrap(),
        "B"
    );
    assert_eq!(stream_device_serial("List of devices attached\n".to_string()).unwrap_err(), "No device connected");
}

#[test]
fn cache_expires_at_exactly_its_time_to_live() {
    let mut cache = PackageCache::new();
    store_packages(&mut cache, "D".to_string(), Vec::new(), 0);
    assert!(!get_cache_status(&cache, 299_999).is_expired);
    assert!(get_cache_status(&cache, 300_000).is_expired);
    assert!(matches!(start_package_stream(&cache, "D", false, 299_999), StreamStart::Replay(_)));
    assert!(matches!(start_package_stream(&cache, "D", false, 300_000), StreamStart::Fetch(_)));
}
