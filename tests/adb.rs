use debloater::adb::{
    bridge_candidates, bridge_outcome, choose_bridge, classify_failure, clear_device_cache,
    connect_tcp, device_properties_command, disconnect_tcp, execute_shell_command,
    execute_shell_command_on_device, finish_device_listing, get_adb_version, get_default_device,
    get_device_properties, get_devices, is_device_online, kill_adb_server, parse_adb_devices,
    parse_properties, ready_devices, start_adb_server, AdbError, BridgeLocator, DeviceCache,
    DeviceLookup, Platform,
};

#[test]
fn test_parse_adb_devices() {
    let output = r#"List of devices attached
ABC123          device product:example model:Pixel_5 device:redfin transport_id:1
DEF456          offline
"#;

    let devices = parse_adb_devices(output.to_string());
    assert_eq!(devices.len(), 2);
    assert_eq!(devices[0].serial, "ABC123");
    assert_eq!(devices[0].state, "device");
    assert_eq!(devices[0].model, Some("Pixel_5".to_string()));
}

#[test]
fn listing_columns_and_skipped_lines() {
    let output = "* daemon started successfully\r\nList of devices attached\r\n\r\nX1\tdevice usb:1 product:p model:m device:d transport_id:7 model:m2\r\nlonely\r\n";
    let devices = parse_adb_devices(output.to_string());
    assert_eq!(devices.len(), 1);
    let d = &devices[0];
    assert_eq!(d.serial, "X1");
    assert_eq!(d.product, Some("p".to_string()));
    assert_eq!(d.model, Some("m2".to_string()));
    assert_eq!(d.device, Some("d".to_string()));
    assert_eq!(d.transport_id, Some("7".to_string()));
}

#[test]
fn registry_keeps_only_ready_devices() {
    let output = "List of devices attached\nA device model:a\nB offline\nC unauthorized\nD device\n";
    let mut cache = DeviceCache::new();
    let ready = finish_device_listing(&mut cache, Ok(output.to_string()), 1000).unwrap();
    let serials: Vec<&str> = ready.iter().map(|d| d.serial.as_str()).collect();
    assert_eq!(serials, vec!["A", "D"]);
    assert!(ready.iter().all(|d| d.state == "device"));
    assert_eq!(cache.devices.len(), 2);
    let all = parse_adb_devices(output.to_string());
    assert_eq!(ready_devices(&all).len(), 2);
}

#[test]
fn second_lookup_within_ttl_spawns_nothing() {
    let mut cache = DeviceCache::new();
    let mut spawns = 0;
    for now in [10_000u64, 14_000u64] {
        match get_devices(&cache, false, now) {
            DeviceLookup::Fetch(args) => {
                assert_eq!(args, vec!["devices".to_string(), "-l".to_string()]);
                spawns += 1;
                finish_device_listing(&mut cache, Ok("S1 device\n".to_string()), now).unwrap();
            }
            DeviceLookup::Cached(ds) => assert_eq!(ds[0].serial, "S1"),
        }
    }
    assert_eq!(spawns, 1);
    assert!(matches!(get_devices(&cache, false, 14_999), DeviceLookup::Cached(_)));
    assert!(matches!(get_devices(&cache, false, 15_000), DeviceLookup::Fetch(_)));
    assert!(matches!(get_devices(&cache, true, 10_001), DeviceLookup::Fetch(_)));
    clear_device_cache(&mut cache);
    assert!(matches!(get_devices(&cache, false, 10_001), DeviceLookup::Fetch(_)));
}

#[test]
fn failed_listing_leaves_cache() {
    let mut cache = DeviceCache::new();
    let r = finish_device_listing(&mut cache, Err(AdbError::DeviceOffline), 5);
    assert_eq!(r.unwrap_err(), AdbError::DeviceOffline);
    assert!(cache.last_update.is_none());
}

#[test]
fn unauthorized_is_classified_exactly() {
    assert_eq!(classify_failure("error: device unauthorized.\nThis adb server's $ADB_VENDOR_KEYS is not set"), AdbError::DeviceUnauthorized);
    assert_eq!(classify_failure("  device unauthorized  "), AdbError::DeviceUnauthorized);
}

#[test]
fn every_error_class() {
    assert_eq!(classify_failure("error: no devices/emulators found"), AdbError::NoDeviceConnected);
    assert_eq!(classify_failure("error: device not found"), AdbError::NoDeviceConnected);
    assert_eq!(classify_failure("error: device offline"), AdbError::DeviceOffline);
    assert_eq!(classify_failure("* cannot connect to daemon"), AdbError::AdbServerNotRunning);
    assert_eq!(classify_failure("cannot connect to 10.0.0.1:5555"), AdbError::AdbServerNotRunning);
    assert_eq!(classify_failure("daemon not running; starting now"), AdbError::AdbServerNotRunning);
    assert_eq!(classify_failure("permission denied"), AdbError::PermissionDenied);
    assert_eq!(classify_failure("access denied"), AdbError::PermissionDenied);
    assert_eq!(classify_failure("  something else \n"), AdbError::CommandFailed("something else".to_string()));
    assert_eq!(classify_failure("device offline, device unauthorized"), AdbError::DeviceOffline);
    assert_eq!(classify_failure("device not found; device unauthorized"), AdbError::DeviceUnauthorized);
    assert_eq!(classify_failure("access denied; permission denied"), AdbError::PermissionDenied);
    assert_eq!(classify_failure("device not found; access denied"), AdbError::NoDeviceConnected);
    assert_eq!(bridge_outcome(true, "out".to_string(), "device offline"), Ok("out".to_string()));
    assert_eq!(bridge_outcome(false, "out".to_string(), "device offline"), Err(AdbError::DeviceOffline));
}

#[test]
fn error_messages() {
    assert_eq!(AdbError::CommandFailed("boom".to_string()).message(), "ADB command failed: boom");
    assert_eq!(AdbError::ParseError("bad".to_string()).message(), "Failed to parse ADB output: bad");
    assert_eq!(AdbError::Timeout.message(), "ADB command timed out. Please check your device connection.");
    assert_eq!(AdbError::AdbNotFound.message(), "ADB (Android Debug Bridge) not found. Please install Android SDK Platform Tools.");
}

#[test]
fn bridge_commands() {
    let ready = parse_adb_devices("S1 device\n".to_string());
    assert_eq!(execute_shell_command(&ready, "ls").unwrap(), vec!["shell", "ls"]);
    assert_eq!(execute_shell_command(&vec![], "ls").unwrap_err(), AdbError::NoDeviceConnected);
    assert_eq!(execute_shell_command_on_device("S1", "ls"), vec!["-s", "S1", "shell", "ls"]);
    assert_eq!(start_adb_server(), vec!["start-server"]);
    assert_eq!(kill_adb_server(), vec!["kill-server"]);
    assert_eq!(get_adb_version(), vec!["version"]);
    assert_eq!(connect_tcp("192.168.1.5", 5555), vec!["connect", "192.168.1.5:5555"]);
    assert_eq!(disconnect_tcp("10.0.0.2", 0), vec!["disconnect", "10.0.0.2:0"]);
    assert_eq!(get_default_device(&ready).unwrap(), "S1");
    assert_eq!(get_default_device(&vec![]).unwrap_err(), AdbError::NoDeviceConnected);
    assert_eq!(device_properties_command(&vec![], None).unwrap_err(), AdbError::NoDeviceConnected);
    assert_eq!(device_properties_command(&vec![], Some("Z".to_string())).unwrap(), vec!["-s", "Z", "shell", "getprop"]);
}

#[test]
fn online_check() {
    let listing = Ok(parse_adb_devices("A device\nB offline\n".to_string()));
    assert!(is_device_online(&listing, "A"));
    assert!(!is_device_online(&listing, "B"));
    assert!(!is_device_online(&listing, "C"));
    assert!(!is_device_online(&Err(AdbError::Timeout), "A"));
}

#[test]
fn properties_are_parsed() {
    let out = "[ro.product.model]: [Pixel 7]\n  [ro.build.version.release]: [14]\r\nnot a property\n[broken]: value\n[a]: [x]\n[a]: [y]\n";
    let props = parse_properties(out);
    assert_eq!(props.len(), 4);
    assert_eq!(props[0], ("ro.product.model".to_string(), "Pixel 7".to_string()));
    assert_eq!(props[1], ("ro.build.version.release".to_string(), "14".to_string()));
    assert_eq!(props[3], ("a".to_string(), "y".to_string()));
    assert_eq!(get_device_properties(Err(AdbError::Timeout)).unwrap_err(), AdbError::Timeout);
}

#[test]
fn locator_probes_once() {
    let c = bridge_candidates(Platform::Unix, None, None, Some("/home/u"));
    assert_eq!(c, vec!["/usr/bin/adb", "/usr/local/bin/adb", "/home/u/Android/Sdk/platform-tools/adb"]);
    let w = bridge_candidates(Platform::Windows, Some("C:\\L"), None, None);
    assert_eq!(w.len(), 4);
    assert_eq!(w[3], "C:\\L\\Android\\Sdk\\platform-tools\\adb.exe");
    let m = bridge_candidates(Platform::MacOs, None, None, None);
    assert_eq!(m, vec!["/usr/local/bin/adb"]);
    assert_eq!(choose_bridge(true, &c, &vec![]), Some("adb".to_string()));
    assert_eq!(choose_bridge(false, &c, &vec![false, true, true]), Some("/usr/local/bin/adb".to_string()));
    assert_eq!(choose_bridge(false, &c, &vec![false]), None);

    let mut locator = BridgeLocator::new();
    assert!(locator.needs_probe());
    assert_eq!(locator.resolve(false, &c, &vec![false, false, true]).unwrap(), "/home/u/Android/Sdk/platform-tools/adb");
    assert!(!locator.needs_probe());
    assert_eq!(locator.resolve(true, &c, &vec![]).unwrap(), "/home/u/Android/Sdk/platform-tools/adb");
    locator.clear();
    assert_eq!(locator.resolve(false, &c, &vec![]).unwrap_err(), AdbError::AdbNotFound);
}

#[test]
fn cached_lookup_returns_only_ready_devices() {
    let mut cache = DeviceCache::new();
    cache.update(parse_adb_devices("A device\nB offline\nC unauthorized\n".to_string()), 0);
    match get_devices(&cache, false, 1) {
        DeviceLookup::Cached(ds) => {
            assert_eq!(ds.len(), 1);
            assert_eq!(ds[0].serial, "A");
        }
        DeviceLookup::Fetch(_) => panic!("the listing is fresh"),
    }
}
