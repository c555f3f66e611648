use cyvra_core::personal_data::{
    classify_extension, drive_prefix, origin_of, should_skip_directory, summarize_root,
};

#[test]
fn drive_prefixes_compare_without_case() {
    assert_eq!(drive_prefix(r"C:\Users\ana"), Some(r"c:\".to_string()));
    assert_eq!(drive_prefix(r"c:\"), drive_prefix(r"C:\Data"));
    assert_eq!(drive_prefix("D:"), None);
}

#[test]
fn profile_folders_are_confirmed_and_data_drives_are_likely() {
    assert_eq!(origin_of(true), ("confirmed_user_location", "user_profile_folder", "high"));
    assert_eq!(origin_of(false), ("likely_personal_data", "data_drive_folder", "medium"));
}

#[test]
fn extensions_and_folders_are_classified_without_case() {
    assert_eq!(classify_extension("DOCX"), Some("document"));
    assert_eq!(classify_extension("pdf"), Some("pdf"));
    assert_eq!(classify_extension("exe"), None);
    assert!(should_skip_directory("Program Files (x86)"));
    assert!(!should_skip_directory("Projects"));
}

#[test]
fn a_root_is_summarised_per_category_in_name_order() {
    let files = vec![
        ("jpg".to_string(), 100),
        ("txt".to_string(), 5),
        ("PNG".to_string(), 50),
        ("exe".to_string(), 1000),
    ];
    let out = summarize_root(r"C:\Users\ana\Pictures", "confirmed_user_location", "user_profile_folder", "high", &files);
    assert_eq!(out.len(), 2);
    assert_eq!(out[0].category, "document");
    assert_eq!(out[0].file_count, 1);
    assert_eq!(out[0].total_bytes, 5);
    assert_eq!(out[1].category, "image");
    assert_eq!(out[1].file_count, 2);
    assert_eq!(out[1].total_bytes, 150);
    assert_eq!(out[1].scan_status, "completed");
}
