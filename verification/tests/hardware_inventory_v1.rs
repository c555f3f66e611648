use cyvra_core::hardware_inventory_v1::{
    derive_battery_health_ratio, CollectionSource, CollectionStatus, Confidence, DeviceIdentifier,
    HardwareInventoryV1, InventoryField, InventorySection, PermissionState, PrivacyClass,
    Provenance, Ratio, SCHEMA_VERSION,
};

fn fixture(collected_at_unix: u64) -> Provenance {
    Provenance {
        source: CollectionSource::TestFixture,
        source_detail: Some("unit-test".to_string()),
        parser_version: "0.2.1".to_string(),
        collected_at_unix,
        permission: PermissionState::NotRequired,
    }
}

#[test]
fn collection_status_wire_values_are_stable() {
    let statuses = [
        (CollectionStatus::Reported, "reported"),
        (CollectionStatus::Observed, "observed"),
        (CollectionStatus::Derived, "derived"),
        (CollectionStatus::Unknown, "unknown"),
        (CollectionStatus::NotReported, "not_reported"),
        (CollectionStatus::NotApplicable, "not_applicable"),
        (CollectionStatus::PermissionDenied, "permission_denied"),
        (CollectionStatus::Unsupported, "unsupported"),
        (CollectionStatus::CollectionError, "collection_error"),
    ];

    for (status, expected) in statuses {
        assert_eq!(status.as_str(), expected);
    }
}

#[test]
fn unknown_numeric_field_never_invents_zero() {
    let field = InventoryField::<u64>::unknown(PrivacyClass::OperationalMetadata, fixture(1_000));

    assert_eq!(field.value, None);
    assert_eq!(field.status, CollectionStatus::Unknown);
    assert!(field.is_consistent());
}

#[test]
fn prohibited_secrets_fail_field_consistency() {
    let field = InventoryField::reported(
        "must-not-be-collected".to_string(),
        Confidence::High,
        PrivacyClass::ProhibitedSecret,
        fixture(1_000),
    );

    assert!(!field.is_consistent());
}

#[test]
fn device_identifier_exposes_only_on_request() {
    let identifier =
        DeviceIdentifier::from_reported("SERIAL-123").expect("fixture identifier must be accepted");
    assert_eq!(identifier.expose_for_authorized_use(), "SERIAL-123");
    assert!(DeviceIdentifier::from_reported("   ").is_none());
}

#[test]
fn not_collected_inventory_is_explicit_and_empty() {
    let inventory = HardwareInventoryV1::not_collected(1_000);

    assert_eq!(inventory.schema_version, SCHEMA_VERSION);
    assert_eq!(inventory.device_and_chassis.status, CollectionStatus::NotReported);
    assert!(inventory.device_and_chassis.records.is_empty());
    assert_eq!(inventory.sensors.status, CollectionStatus::NotReported);
    assert!(inventory.sensors.records.is_empty());
}

#[test]
fn battery_health_is_derived_only_from_reported_capacities() {
    let designed = InventoryField::reported(
        50_000_u64,
        Confidence::High,
        PrivacyClass::OperationalMetadata,
        fixture(1_000),
    );
    let full_charge = InventoryField::reported(
        40_000_u64,
        Confidence::High,
        PrivacyClass::OperationalMetadata,
        fixture(1_000),
    );

    let ratio = derive_battery_health_ratio(&designed, &full_charge, fixture(1_000));

    assert_eq!(ratio.status, CollectionStatus::Derived);
    let value: Ratio = ratio.value.expect("derived ratio");
    assert_eq!(value, Ratio { numerator: 40_000, denominator: 50_000 });
    assert!((value.numerator as f64 / value.denominator as f64 - 0.8).abs() < f64::EPSILON);
}

#[test]
fn battery_health_is_unknown_without_design_capacity() {
    let designed = InventoryField::<u64>::unknown(PrivacyClass::OperationalMetadata, fixture(1_000));
    let full_charge = InventoryField::reported(
        40_000_u64,
        Confidence::High,
        PrivacyClass::OperationalMetadata,
        fixture(1_000),
    );

    let ratio = derive_battery_health_ratio(&designed, &full_charge, fixture(1_000));

    assert_eq!(ratio.value, None);
    assert_eq!(ratio.status, CollectionStatus::Unknown);
}

#[test]
fn battery_health_is_unknown_when_full_charge_is_zero() {
    let designed = InventoryField::reported(
        50_000_u64,
        Confidence::High,
        PrivacyClass::OperationalMetadata,
        fixture(1_000),
    );
    let full_charge = InventoryField::reported(
        0_u64,
        Confidence::High,
        PrivacyClass::OperationalMetadata,
        fixture(1_000),
    );

    let ratio = derive_battery_health_ratio(&designed, &full_charge, fixture(1_000));

    assert_eq!(ratio.value, None);
    assert_eq!(ratio.status, CollectionStatus::Unknown);
}

#[test]
fn a_section_with_records_needs_a_value_status() {
    let mut section: InventorySection<u32> = InventorySection::not_reported(fixture(5));
    assert!(section.is_consistent());
    section.records.push(1);
    assert!(!section.is_consistent());
    section.status = CollectionStatus::Reported;
    assert!(section.is_consistent());
}

#[test]
fn device_identifier_debug_output_is_redacted() {
    let identifier =
        DeviceIdentifier::from_reported("SERIAL-123").expect("fixture identifier must be accepted");

    assert_eq!(identifier.redacted_text(), "<redacted-device-identifier>");
    assert!(!identifier.redacted_text().contains("SERIAL-123"));
    assert_eq!(identifier.expose_for_authorized_use(), "SERIAL-123");
}
