use debloater::package_database::{
    get_all_packages, get_display_name, get_package_info, get_safety_level, get_safety_reason,
    is_safe_to_remove, SafetyLevel,
};

#[test]
fn test_safety_levels() {
    assert_eq!(get_safety_level("com.facebook.katana"), SafetyLevel::Caution);
    assert_eq!(get_safety_level("com.google.android.gms"), SafetyLevel::Expert);
    assert_eq!(get_safety_level("com.android.systemui"), SafetyLevel::Dangerous);
    assert_eq!(get_safety_level("com.google.android.apps.maps"), SafetyLevel::Safe);
}

#[test]
fn test_safe_to_remove() {
    assert!(is_safe_to_remove("com.google.android.apps.maps"));
    assert!(is_safe_to_remove("com.facebook.katana"));
    assert!(!is_safe_to_remove("com.android.systemui"));
    assert!(!is_safe_to_remove("com.google.android.gms"));
}

#[test]
fn test_pattern_matching() {
    assert_eq!(get_safety_level("com.facebook.unknown"), SafetyLevel::Caution);
    assert_eq!(get_safety_level("com.samsung.unknown"), SafetyLevel::Caution);
}

#[test]
fn test_display_name() {
    assert_eq!(get_display_name("com.facebook.katana"), "Facebook");
    assert_eq!(get_display_name("com.google.android.apps.maps"), "Google Maps");
}

#[test]
fn unknown_package_gets_readable_name() {
    assert_eq!(get_display_name("org.example.my_cool_app"), "My Cool App");
    assert_eq!(get_display_name("single"), "Single");
    assert_eq!(get_display_name("org.example."), "");
    assert_eq!(get_display_name("org.ex.über_app"), "Über App");
}

#[test]
fn vendor_patterns_in_priority_order() {
    assert_eq!(get_safety_level("org.tiktok.x.com.android.vending"), SafetyLevel::Dangerous);
    assert_eq!(get_safety_level("com.tiktok.com.android.vending"), SafetyLevel::Caution);
    assert_eq!(get_safety_level("com.android.vending.extra"), SafetyLevel::Dangerous);
    assert_eq!(get_safety_level("com.vivo.browser"), SafetyLevel::Caution);
    assert_eq!(get_safety_level("org.mozilla.firefox"), SafetyLevel::Safe);
}

#[test]
fn level_names() {
    assert_eq!(SafetyLevel::Safe.as_str(), "Safe");
    assert_eq!(SafetyLevel::Caution.as_str(), "Caution");
    assert_eq!(SafetyLevel::Expert.as_str(), "Expert");
    assert_eq!(SafetyLevel::Dangerous.as_str(), "Dangerous");
}

#[test]
fn knowledge_base_records() {
    let all = get_all_packages();
    assert_eq!(all.len(), 47);
    assert_eq!(all[0].name, "com.android.systemui");
    let info = get_package_info("com.whatsapp").unwrap();
    assert_eq!(info.display_name, "WhatsApp");
    assert_eq!(info.safety_level, SafetyLevel::Caution);
    assert!(info.can_reinstall);
    assert!(get_package_info("com.unknown.app").is_none());
    assert_eq!(
        get_safety_reason("com.android.phone"),
        "Required for phone calls and cellular functionality"
    );
    assert_eq!(
        get_safety_reason("com.unknown.app"),
        "No information available for this package."
    );
}
