use debloater::backup::{
    backup_data, backup_file_name, device_name_of, new_backup, reinstall_outcome,
    reinstall_verdict, restore_summary,
};
use debloater::ai_advisor::{normalize_risk_category, PackageAnalysis};

#[test]
fn backup_names_and_data() {
    assert_eq!(backup_file_name("2025-11-04_134500"), "backup_2025-11-04_134500.json");
    let d = backup_data("2025-11-04T13:45:00Z".to_string(), "Pixel 6".to_string(), vec!["com.facebook".to_string()]);
    assert_eq!(d.version, "1.0");
    assert_eq!(device_name_of(None), "Unknown Device");
    assert_eq!(device_name_of(Some(" Pixel 6\n".to_string())), "Pixel 6");
}

#[test]
fn reinstall_and_restore() {
    assert!(reinstall_verdict("Package x installed for user: 0", "package x installed for user: 0").is_ok());
    assert_eq!(reinstall_verdict(" Failure [x] ", " failure [x] ").unwrap_err(), "Installation failed: Failure [x]");
    assert!(reinstall_outcome(Ok("whatever".to_string())).is_ok());
    assert_eq!(reinstall_outcome(Ok("FAILURE".to_string())).unwrap_err(), "Installation failed: FAILURE");
    let r = restore_summary(vec![
        ("a".to_string(), Ok(())),
        ("b".to_string(), Err("nope".to_string())),
        ("c".to_string(), Ok(())),
    ]);
    assert_eq!((r.restored, r.failed, r.success), (2, 1, false));
    assert_eq!(r.errors, vec!["b: nope".to_string()]);
    assert!(restore_summary(vec![]).success);
}

fn analysis(category: &str) -> PackageAnalysis {
    PackageAnalysis {
        package_name: "p".to_string(),
        summary: String::new(),
        purpose: String::new(),
        dependencies: vec![],
        safe_to_remove: false,
        risk_category: category.to_string(),
        consequences: vec![],
        user_reports: vec![],
        technical_details: String::new(),
        best_case: String::new(),
        worst_case: String::new(),
    }
}

#[test]
fn risk_category_normalized() {
    assert_eq!(normalize_risk_category(analysis("Expert")).risk_category, "Expert");
    assert_eq!(normalize_risk_category(analysis("High")).risk_category, "Caution");
}

#[test]
fn backup_stamped_with_time() {
    let (data, file) = new_backup(1431648000, 0, "Pixel 6".to_string(), vec!["a.b".to_string()]).unwrap();
    assert_eq!(data.timestamp, "2015-05-15T00:00:00+00:00");
    assert_eq!(file, "backup_2015-05-15_000000.json");
    assert_eq!(data.device_name, "Pixel 6");
    assert_eq!(data.packages, vec!["a.b".to_string()]);
    assert!(new_backup(i64::MAX, 0, String::new(), vec![]).is_none());
}

#[test]
fn every_instant_up_to_year_9999_is_stamped() {
    let (data, file) = new_backup(253402300799, 999_999_999, String::new(), vec![]).unwrap();
    assert_eq!(file, "backup_9999-12-31_235959.json");
    assert!(data.timestamp.starts_with("9999-12-31T23:59:59.999999999"));
    assert!(new_backup(0, 0, String::new(), vec![]).is_some());
}
