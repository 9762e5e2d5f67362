use debloater::adb::{parse_adb_devices, AdbError};
use debloater::commands::{
    adb_error_to_string, android_version, determine_safety_level, df_available_columns,
    get_app_name, get_battery_level, get_device_info, list_packages, uninstall_command,
    uninstall_package, uninstall_result,
};

#[test]
fn package_list_sorted_with_levels() {
    let out = "package:com.facebook.katana\npackage:com.google.android.apps.maps\npackage:com.android.systemui\n";
    let list = list_packages(out);
    let got: Vec<(&str, &str, &str)> = list
        .iter()
        .map(|p| (p.package_name.as_str(), p.app_name.as_str(), p.safety_level.as_str()))
        .collect();
    assert_eq!(
        got,
        vec![
            ("com.android.systemui", "System UI", "Dangerous"),
            ("com.facebook.katana", "Facebook", "Caution"),
            ("com.google.android.apps.maps", "Google Maps", "Safe"),
        ]
    );
}

#[test]
fn battery_level_parsing() {
    let out = "Current Battery Service state:\n  AC powered: false\n  level: 85\n  scale: 100\n";
    assert_eq!(get_battery_level(out), Some(85));
    assert_eq!(get_battery_level("level: x\nlevel: -3\n"), Some(-3));
    assert_eq!(get_battery_level("no level here"), None);
}

#[test]
fn device_info_assembly() {
    let devices = Ok(parse_adb_devices("S9 device model:Pixel_7\n".to_string()));
    let info = get_device_info(
        true,
        devices,
        Some(" 14\n".to_string()),
        Some("level: 50".to_string()),
        Some("1.5 GB".to_string()),
    )
    .unwrap();
    assert_eq!(info.name, "S9");
    assert_eq!(info.model, Some("Pixel_7".to_string()));
    assert_eq!(info.android_version, "14");
    assert_eq!(info.battery_percentage, Some(50));
    assert_eq!(info.storage_available, Some("1.5 GB".to_string()));
    assert_eq!(
        get_device_info(false, Ok(vec![]), None, None, None).unwrap_err(),
        "ADB (Android Debug Bridge) not found. Please install Android SDK Platform Tools."
    );
    assert_eq!(
        get_device_info(true, Ok(vec![]), None, None, None).unwrap_err(),
        "No device connected. Please connect an Android device via USB or TCP."
    );
    assert_eq!(
        get_device_info(true, Err(AdbError::DeviceUnauthorized), None, None, None).unwrap_err(),
        "Device is unauthorized. Please check the device screen for USB debugging authorization prompt."
    );
    assert_eq!(android_version(None), "Unknown");
}

#[test]
fn uninstall_outcomes() {
    assert_eq!(uninstall_command(""), None);
    assert_eq!(uninstall_command("com.x").unwrap(), "pm uninstall -k com.x");
    let ok = uninstall_package("com.x".to_string(), Ok("Success\n".to_string()));
    assert!(ok.success);
    assert_eq!(ok.message, Some("Successfully uninstalled com.x".to_string()));
    let bad = uninstall_package("com.x".to_string(), Ok(" FAILURE [not installed]\n".to_string()));
    assert!(!bad.success);
    assert_eq!(bad.error, Some("Failed to uninstall: FAILURE [not installed]".to_string()));
    let odd = uninstall_package("com.x".to_string(), Ok("huh".to_string()));
    assert_eq!(odd.error, Some("Unexpected response: huh".to_string()));
    let empty = uninstall_package(String::new(), Ok("Success".to_string()));
    assert_eq!(empty.error, Some("Package name cannot be empty".to_string()));
    let err = uninstall_package("com.x".to_string(), Err(AdbError::NoDeviceConnected));
    assert_eq!(err.error, Some(adb_error_to_string(AdbError::NoDeviceConnected)));
    let direct = uninstall_result("p", "Success", "success");
    assert!(direct.success);
}

#[test]
fn small_helpers() {
    assert_eq!(determine_safety_level("com.android.settings"), "Dangerous");
    assert_eq!(get_app_name("com.example.foo_bar"), "Foo Bar");
    let df = "Filesystem 1K-blocks Used Available Use% Mounted\n/dev/block 100 50 50G 50% /data\n";
    assert_eq!(df_available_columns(df), vec!["50G".to_string()]);
}
