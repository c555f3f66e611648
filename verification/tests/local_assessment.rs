use cyvra_core::application_data::{profile_candidates, store_app_candidate, LocationWalk};
use cyvra_core::customer::{
    append_disk_serials, friendly_category, location_groups, looks_like_missing_serial,
    overlay_bios_serial_from_device, prepend_field,
};
use cyvra_core::customer_fields::{customer_hardware_fields, format_bytes};
use cyvra_core::encryption::{collect as collect_encryption, elevation_from};
use cyvra_core::customer::FIRMWARE_NOT_REPORTED;
use cyvra_core::hardware_inventory_v1::{
    CollectionStatus, Confidence, DeviceAndChassisIdentity, DeviceIdentifier, HardwareInventoryV1,
    InventoryField, InventorySection, PrivacyClass, Provenance,
};
use cyvra_core::hardware_validation::{build_report, flatten_text, not_windows_text};
use cyvra_core::pdem::{build, storage_scope};
use cyvra_core::personal_data::{classify_extension, should_skip_directory, summarize_root, PersonalDataInventory};
use cyvra_core::storage::{collect as collect_storage, PhysicalDisk, StorageProfile};
use cyvra_core::application_data::ApplicationDataInventory;
use cyvra_core::{format_drive_size, selected_letters, NamedValue};

fn named(label: &str, value: &str) -> NamedValue {
    NamedValue { label: label.to_string(), value: value.to_string() }
}

#[test]
fn diagnostic_text_is_single_line_and_bounded() {
    let value = format!("alpha=beta|gamma\n{}", "x".repeat(200));
    let flattened = flatten_text(&value);

    assert!(!flattened.contains('\n'));
    assert!(!flattened.contains('='));
    assert!(!flattened.contains('|'));
    assert!(flattened.chars().count() <= 160);
    assert!(flattened.starts_with("alpha beta gamma xxx"));
}

#[test]
fn not_collected_inventory_fails_validation_explicitly() {
    let report = build_report(&HardwareInventoryV1::not_collected(1_000));
    let output = report.lines.join("\n");

    assert!(!report.passed);
    assert!(output.contains("requested_coverage_complete=false"));
    assert!(output.contains("result=fail"));
    assert!(output.contains("destructive_operations=false"));
    assert!(output.contains("device_section_status=not_reported"));
    assert!(output.contains("processor_record_count=0"));
}

#[test]
fn off_windows_the_validator_says_so() {
    let text = not_windows_text();
    assert!(text.starts_with("validator=cyvra_w1_3c_hardware_validation\nvalidator_version=0.2.1"));
    assert!(text.ends_with("result=not_windows"));
}

#[test]
fn an_empty_inventory_shows_no_customer_rows() {
    assert!(customer_hardware_fields(&HardwareInventoryV1::not_collected(1)).is_empty());
}

#[test]
fn bytes_are_shown_in_customer_units() {
    assert_eq!(format_bytes(512), "512 bytes");
    assert_eq!(format_bytes(3 * 1_048_576), "3 MB");
    assert_eq!(format_bytes(8 * 1_073_741_824), "8.0 GB");
    assert_eq!(format_bytes(17_179_869_184 + 536_870_912), "16.5 GB");
    assert_eq!(format_drive_size(0), "Size not reported");
    assert_eq!(format_drive_size(256_060_514_304), "238 GB");
}

#[test]
fn disks_and_volumes_parse_from_their_listing() {
    let profile = collect_storage(true, Some("0|Samsung SSD|S123 |512110190592|SCSI|Fixed hard disk media|FW1\n\nbad|line\n"));
    assert_eq!(profile.discovery_status, "completed");
    assert_eq!(profile.disks.len(), 1);
    assert_eq!(profile.disks[0].serial_number, "S123");
    assert_eq!(profile.disks[0].size_bytes, 512_110_190_592);
    assert!(!profile.destructive_operations_enabled);
    assert_eq!(collect_storage(false, None).discovery_status, "not_windows");
    assert_eq!(collect_storage(true, None).discovery_status, "collection_failed");
}

#[test]
fn bitlocker_listing_keeps_protector_types_only() {
    let profile = collect_encryption(true, Some(true), Some("C:|FullyEncrypted|On|100|XtsAes128| Tpm, RecoveryPassword ,\n"));
    assert_eq!(profile.collection_status, "completed");
    assert_eq!(profile.volumes[0].encryption_percentage, 100);
    assert_eq!(profile.volumes[0].key_protector_types, vec!["Tpm".to_string(), "RecoveryPassword".to_string()]);
    assert_eq!(collect_encryption(true, Some(false), None).collection_status, "requires_elevation");
    assert_eq!(collect_encryption(true, None, None).collection_status, "unavailable");
    assert_eq!(elevation_from(" true\r\n"), Some(true));
    assert_eq!(elevation_from("maybe"), None);
}

#[test]
fn files_are_counted_by_category_without_opening_them() {
    assert_eq!(classify_extension("DOCX"), Some("document"));
    assert_eq!(classify_extension("exe"), None);
    assert!(should_skip_directory("Program Files"));
    assert!(!should_skip_directory("Projects"));
    let files = vec![
        ("pdf".to_string(), 10_u64),
        ("JPG".to_string(), 5),
        ("pdf".to_string(), u64::MAX),
        ("exe".to_string(), 1),
    ];
    let found = summarize_root(r"D:\Data", "likely_personal_data", "data_drive_folder", "medium", &files);
    assert_eq!(found.len(), 2);
    assert_eq!(found[0].category, "image");
    assert_eq!(found[0].file_count, 1);
    assert_eq!(found[1].category, "pdf");
    assert_eq!(found[1].file_count, 2);
    assert_eq!(found[1].total_bytes, u64::MAX);
}

#[test]
fn application_candidates_and_limits() {
    assert_eq!(profile_candidates().len(), 8);
    assert_eq!(store_app_candidate("5319275A.WhatsAppDesktop_cv1g1gvanyjgm").map(|c| c.0), Some("WhatsApp"));
    assert_eq!(store_app_candidate("Microsoft.Paint"), None);
    let mut walk = LocationWalk::new();
    assert!(walk.enter_directory());
    assert!(walk.record_file(100));
    walk.record_unreadable();
    assert_eq!(walk.scan_status(), "partial");
    assert_eq!(walk.total_bytes, 100);
}

#[test]
fn the_exposure_map_numbers_every_location() {
    let personal = PersonalDataInventory {
        discovery_status: "completed".to_string(),
        content_inspected: false,
        locations: summarize_root(r"C:\Users\Al\Documents", "confirmed_user_location", "user_profile_folder", "high", &[("pst".to_string(), 7)]),
        inaccessible_entries: 0,
    };
    let apps = ApplicationDataInventory::not_windows();
    let map = build(&personal, &apps);
    assert_eq!(map.collection_status, "partial");
    assert_eq!(map.objects.len(), 1);
    assert_eq!(map.objects[0].object_id, "pdem-0001");
    assert_eq!(map.objects[0].risk, "high");
    assert_eq!(map.objects[0].storage_scope, r"C:\");
    assert_eq!(storage_scope("share"), "unknown");
}

#[test]
fn customer_rows_are_merged_without_duplicates() {
    let mut fields = vec![named("BIOS / OEM serial", "Not reported by firmware")];
    prepend_field(&mut fields, "Computer name", "PC-1".to_string());
    prepend_field(&mut fields, "Computer name", "PC-2".to_string());
    prepend_field(&mut fields, "Operating system", "unknown".to_string());
    overlay_bios_serial_from_device(&mut fields, "  ABC123 ");
    assert_eq!(fields[0].value, "PC-1");
    assert_eq!(fields[1].value, "ABC123");
    let storage = StorageProfile {
        discovery_status: "completed".to_string(),
        destructive_operations_enabled: false,
        note: String::new(),
        disks: vec![
            PhysicalDisk {
                index: 0,
                model: "m".to_string(),
                serial_number: " S1 ".to_string(),
                size_bytes: 1,
                interface_type: "SCSI".to_string(),
                media_type: "x".to_string(),
                firmware_revision: "f".to_string(),
            },
            PhysicalDisk {
                index: 1,
                model: "m".to_string(),
                serial_number: "0000".to_string(),
                size_bytes: 1,
                interface_type: "SCSI".to_string(),
                media_type: "x".to_string(),
                firmware_revision: "f".to_string(),
            },
        ],
    };
    append_disk_serials(&mut fields, &storage);
    assert_eq!(fields.last().map(|f| (f.label.as_str(), f.value.as_str())), Some(("Disk 0 serial", "S1")));
    assert!(looks_like_missing_serial("To Be Filled By O.E.M."));
    assert!(!looks_like_missing_serial("PF3ABC"));
}

#[test]
fn locations_are_grouped_by_friendly_category() {
    let locations = summarize_root(r"C:\x", "c", "s", "h", &[("pdf".to_string(), 1), ("doc".to_string(), 1), ("docx".to_string(), 1)]);
    let groups = location_groups(&locations, 1);
    let shown: Vec<(String, String)> = groups.into_iter().map(|g| (g.label, g.value)).collect();
    assert_eq!(
        shown,
        vec![
            ("Documents".to_string(), "2 files".to_string()),
            ("PDF files".to_string(), "1 file".to_string()),
            ("Application data paths".to_string(), "1 location".to_string()),
        ]
    );
    assert_eq!(friendly_category("browser_profile"), "browser profile");
}

#[test]
fn selected_letters_default_to_the_system_drive() {
    assert_eq!(selected_letters(&[], "C".to_string()), vec!["C".to_string()]);
    assert_eq!(selected_letters(&["e:".to_string(), "?".to_string()], "C".to_string()), vec!["E".to_string()]);
}

fn identity_with(
    serial: Option<&str>,
    board_serial: Option<&str>,
    provenance: &Provenance,
) -> DeviceAndChassisIdentity {
    let unknown_text = || InventoryField::<String>::unknown(PrivacyClass::NonSensitive, provenance.clone());
    let unknown_identifier =
        || InventoryField::<DeviceIdentifier>::unknown(PrivacyClass::DeviceIdentifier, provenance.clone());
    let identifier = |value: Option<&str>| match value {
        Some(v) => InventoryField::reported(
            DeviceIdentifier::from_reported(v).expect("test identifier"),
            Confidence::High,
            PrivacyClass::DeviceIdentifier,
            provenance.clone(),
        ),
        None => unknown_identifier(),
    };
    DeviceAndChassisIdentity {
        system_manufacturer: unknown_text(),
        system_model: unknown_text(),
        system_family: unknown_text(),
        serial_number: identifier(serial),
        system_uuid: unknown_identifier(),
        chassis_manufacturer: unknown_text(),
        chassis_type: unknown_text(),
        chassis_serial_number: unknown_identifier(),
        baseboard_manufacturer: unknown_text(),
        baseboard_product: unknown_text(),
        baseboard_version: unknown_text(),
        baseboard_serial_number: identifier(board_serial),
        asset_tag: unknown_identifier(),
        form_factor: InventoryField::unknown(PrivacyClass::NonSensitive, provenance.clone()),
        classification: InventoryField::unknown(PrivacyClass::NonSensitive, provenance.clone()),
    }
}

#[test]
fn report_never_emits_device_identifiers() {
    let mut inventory = HardwareInventoryV1::not_collected(1_000);
    let provenance = Provenance::not_collected(1_000);
    inventory.device_and_chassis = InventorySection {
        status: CollectionStatus::Reported,
        provenance: provenance.clone(),
        records: vec![identity_with(Some("DO-NOT-PRINT-SERIAL"), None, &provenance)],
    };

    let output = build_report(&inventory).lines.join("\n");
    assert!(output.contains("identifiers=redacted"));
    assert!(!output.contains("DO-NOT-PRINT-SERIAL"));

    let customer = customer_hardware_fields(&inventory);
    assert!(
        customer
            .iter()
            .any(|(label, value)| label == "BIOS / OEM serial" && value == "DO-NOT-PRINT-SERIAL"),
        "{customer:?}"
    );
}

#[test]
fn customer_report_exposes_authorized_serials() {
    let mut inventory = HardwareInventoryV1::not_collected(1_000);
    let provenance = Provenance::not_collected(1_000);
    inventory.device_and_chassis = InventorySection {
        status: CollectionStatus::Reported,
        provenance: provenance.clone(),
        records: vec![identity_with(Some("SAMPLE-BIOS-01"), Some("BOARD-88"), &provenance)],
    };

    let customer = customer_hardware_fields(&inventory);
    assert!(customer
        .iter()
        .any(|(label, value)| label == "BIOS / OEM serial" && value == "SAMPLE-BIOS-01"));
    assert!(customer
        .iter()
        .any(|(label, value)| label == "Motherboard serial" && value == "BOARD-88"));
    assert!(customer
        .iter()
        .any(|(label, value)| label == "Chassis serial" && value == FIRMWARE_NOT_REPORTED));
    assert!(!customer.iter().any(|(label, _)| label == "SMBIOS UUID"));
}
