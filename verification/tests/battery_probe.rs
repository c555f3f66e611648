use cyvra_core::battery_probe::{parse_probe, BatteryProbe, BatteryReading, BatterySource, SourceOutcome};

fn hex(value: &str) -> String {
    value.as_bytes().iter().map(|byte| format!("{byte:02x}")).collect()
}

struct Fixture(String);

impl Fixture {
    fn new() -> Self {
        Self(String::new())
    }

    fn line(mut self, section: &str, index: usize, name: &str, value: &str) -> Self {
        self.0.push_str(&format!("{section}\t{index}\t{name}\t{}\n", hex(value)));
        self
    }

    fn probe(&self) -> BatteryProbe {
        parse_probe(&self.0)
    }
}

/// Wear in percent from the exact capacities, as the report prints it.
fn wear_percent(reading: &BatteryReading) -> Option<f64> {
    reading
        .capacity_basis()
        .map(|(full, design)| ((1.0 - full as f64 / design as f64) * 100.0).max(0.0))
}

fn health_percent(reading: &BatteryReading) -> Option<f64> {
    wear_percent(reading).map(|wear| 100.0 - wear)
}

const ALL_SOURCES: [BatterySource; 5] = [
    BatterySource::ManagementClass,
    BatterySource::StaticData,
    BatterySource::FullChargedCapacity,
    BatterySource::CycleCount,
    BatterySource::FirmwareReport,
];

#[test]
fn healthy_pack_reports_real_wear() {
    let probe = Fixture::new()
        .line("battery", 0, "source_status", "reported")
        .line("battery", 0, "present", "True")
        .line("battery", 0, "name", "Primary")
        .line("battery", 0, "chemistry_code", "6")
        .line("battery", 0, "battery_status_code", "2")
        .line("battery", 0, "charge_percent", "97")
        .line("battery", 0, "designed_capacity", "45000")
        .line("battery", 0, "full_charge_capacity", "39150")
        .probe();

    let reading = probe.primary().expect("one pack");
    assert!(probe.has_capacity());
    assert_eq!(reading.chemistry.as_deref(), Some("Lithium-ion"));
    assert_eq!(reading.status_text.as_deref(), Some("On mains power"));
    assert_eq!(reading.charge_percent, Some(97));
    assert_eq!(reading.capacity_basis(), Some((39_150, 45_000)));
    assert!((wear_percent(reading).expect("wear") - 13.0).abs() < 0.01);
    assert!((health_percent(reading).expect("health") - 87.0).abs() < 0.01);
    assert_eq!(reading.health_band(), Some("Good"));
    assert_eq!(reading.capacity_unit(), " mWh");
    assert_eq!(reading.capacity_source, Some(BatterySource::ManagementClass));
}

#[test]
fn firmware_report_supplies_capacity_when_the_class_will_not() {
    let probe = Fixture::new()
        .line("battery", 0, "source_status", "reported")
        .line("battery", 0, "present", "True")
        .line("static", 0, "source_status", "permission_denied")
        .line("firmware", 0, "source_status", "reported")
        .line("firmware", 0, "temporary_file_written", "True")
        .line("firmware", 0, "temporary_file_removed", "True")
        .line("firmware", 0, "designed_capacity", "45000")
        .line("firmware", 0, "full_charge_capacity", "27000")
        .line("firmware", 0, "cycle_count", "412")
        .probe();

    let reading = probe.primary().expect("one pack");
    assert_eq!(reading.designed_capacity, Some(45_000));
    assert_eq!(reading.cycle_count, Some(412));
    assert_eq!(reading.capacity_source, Some(BatterySource::FirmwareReport));
    assert_eq!(reading.health_band(), Some("Degraded"));
    assert!(probe.temporary_file_written);
    assert!(probe.temporary_file_removed);
    assert_eq!(probe.outcome_for(BatterySource::StaticData), SourceOutcome::PermissionDenied);
}

#[test]
fn a_missing_design_capacity_never_becomes_a_percentage() {
    let probe = Fixture::new()
        .line("battery", 0, "source_status", "reported")
        .line("battery", 0, "present", "True")
        .line("battery", 0, "charge_percent", "64")
        .line("battery", 0, "full_charge_capacity", "39150")
        .probe();

    let reading = probe.primary().expect("one pack");
    assert_eq!(reading.designed_capacity, None);
    assert_eq!(wear_percent(reading), None);
    assert_eq!(health_percent(reading), None);
    assert_eq!(reading.health_band(), None);
    assert!(!probe.has_capacity());
    assert_eq!(reading.charge_percent, Some(64));
}

#[test]
fn a_desktop_is_reported_as_having_no_battery_not_as_unreadable() {
    let probe = Fixture::new()
        .line("battery", 0, "source_status", "reported")
        .line("battery", 0, "record_count", "0")
        .probe();

    assert!(probe.readings.is_empty());
    assert!(probe.reports_no_battery());
    assert_eq!(probe.outcome_for(BatterySource::ManagementClass), SourceOutcome::Reported);
}

#[test]
fn a_refused_query_is_distinguished_from_an_absent_battery() {
    let probe = Fixture::new().line("battery", 0, "source_status", "permission_denied").probe();

    assert!(probe.readings.is_empty());
    assert!(!probe.reports_no_battery());
    assert_eq!(probe.outcome_for(BatterySource::ManagementClass), SourceOutcome::PermissionDenied);
    assert_eq!(
        probe.outcome_for(BatterySource::ManagementClass).customer_label(),
        "Refused without administrator rights"
    );
}

#[test]
fn relative_capacity_packs_do_not_claim_milliwatt_hours() {
    let probe = Fixture::new()
        .line("battery", 0, "source_status", "reported")
        .line("battery", 0, "present", "True")
        .line("battery", 0, "designed_capacity", "100")
        .line("battery", 0, "full_charge_capacity", "88")
        .line("static", 0, "source_status", "reported")
        .line("static", 0, "capabilities", "1073741824")
        .probe();

    let reading = probe.primary().expect("one pack");
    assert!(reading.relative_capacity);
    assert_eq!(reading.capacity_unit(), "");
    assert_eq!(reading.health_band(), Some("Good"));
    assert!(probe.relative_capacity_note().is_some());
}

#[test]
fn an_impossible_capacity_ratio_is_refused_rather_than_printed() {
    let probe = Fixture::new()
        .line("battery", 0, "source_status", "reported")
        .line("battery", 0, "present", "True")
        .line("battery", 0, "designed_capacity", "1000")
        .line("battery", 0, "full_charge_capacity", "9000000")
        .probe();

    assert_eq!(wear_percent(probe.primary().expect("pack")), None);
    assert_eq!(probe.primary().expect("pack").capacity_basis(), None);
}

#[test]
fn a_slightly_over_design_capacity_reads_as_zero_wear_not_negative() {
    let probe = Fixture::new()
        .line("battery", 0, "source_status", "reported")
        .line("battery", 0, "present", "True")
        .line("battery", 0, "designed_capacity", "45000")
        .line("battery", 0, "full_charge_capacity", "45900")
        .probe();

    let reading = probe.primary().expect("pack");
    assert_eq!(wear_percent(reading), Some(0.0));
    assert_eq!(reading.health_band(), Some("Good"));
}

#[test]
fn placeholder_identifiers_are_dropped() {
    let probe = Fixture::new()
        .line("battery", 0, "source_status", "reported")
        .line("battery", 0, "present", "True")
        .line("static", 0, "serial_number", "0000000")
        .line("static", 0, "manufacturer", "To Be Filled By O.E.M.")
        .probe();

    let reading = probe.primary().expect("pack");
    assert_eq!(reading.serial_number, None);
    assert_eq!(reading.manufacturer, None);
}

#[test]
fn malformed_and_unknown_protocol_lines_are_ignored_safely() {
    let probe = Fixture::new()
        .line("battery", 0, "source_status", "reported")
        .line("battery", 0, "present", "True")
        .line("battery", 0, "designed_capacity", "45000")
        .line("battery", 0, "full_charge_capacity", "36000")
        .probe();
    let mut text = String::new();
    text.push_str("battery\t0\tsource_status\t");
    text.push_str(&hex("reported"));
    text.push('\n');
    text.push_str("battery\t0\tpresent\tzz\n");
    text.push_str("battery\tNOPE\tpresent\t54727565\n");
    text.push_str("evil\t0\tdesigned_capacity\t3435303030\n");
    text.push_str("battery\t0\tsecret_field\t3435303030\n");

    let hostile = parse_probe(&text);
    assert!(hostile.readings.is_empty());
    assert!(probe.has_capacity());
}

#[test]
fn an_unavailable_probe_states_the_reason_and_claims_nothing() {
    let probe = BatteryProbe::unavailable("Battery collection is only available on Windows.");

    assert!(probe.readings.is_empty());
    assert!(!probe.has_capacity());
    assert!(!probe.reports_no_battery());
    assert_eq!(probe.probe_error, Some("Battery collection is only available on Windows."));
    for source in ALL_SOURCES {
        assert_eq!(probe.outcome_for(source), SourceOutcome::NotQueried);
    }
}

#[test]
fn a_pack_below_half_its_design_is_critical() {
    let probe = Fixture::new()
        .line("battery", 0, "source_status", "reported")
        .line("battery", 0, "present", "True")
        .line("battery", 0, "designed_capacity", "40000")
        .line("battery", 0, "full_charge_capacity", "19000")
        .probe();
    assert_eq!(probe.primary().expect("pack").health_band(), Some("Critical"));
}

#[test]
fn a_default_reading_reports_nothing() {
    let reading = BatteryReading::default();
    assert!(!reading.present);
    assert_eq!(reading.designed_capacity, None);
    assert_eq!(reading.full_charge_capacity, None);
    assert_eq!(reading.charge_percent, None);
    assert!(!reading.relative_capacity);
    assert_eq!(reading.capacity_source, None);
}
