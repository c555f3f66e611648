use cyvra_core::hardware_diagnostics_v1::CriticalFault;
use cyvra_core::storage_health::{
    parse_probe, SourceOutcome, StorageProbe, StorageSource, STORAGE_SCRIPT,
};

fn hex(value: &str) -> String {
    value.as_bytes().iter().map(|byte| format!("{byte:02x}")).collect()
}

struct Fixture(String);

impl Fixture {
    fn new() -> Self {
        Self(String::new())
    }

    fn line(mut self, section: &str, index: usize, name: &str, value: &str) -> Self {
        self.0.push_str(&format!("{section}\t{index}\t{name}\t{}\n", hex(value)));
        self
    }

    fn probe(&self) -> StorageProbe {
        parse_probe(&self.0)
    }
}

#[test]
fn a_healthy_nvme_reports_its_wear_and_no_fault() {
    let probe = Fixture::new()
        .line("physical", 0, "source_status", "reported")
        .line("physical", 0, "present", "True")
        .line("physical", 0, "model", "Samsung SSD 990 PRO 1TB")
        .line("physical", 0, "serial_number", "S6Z1NS0W123456")
        .line("physical", 0, "bus_type", "NVMe")
        .line("physical", 0, "media_kind", "SSD")
        .line("physical", 0, "rotational", "False")
        .line("reliability", 0, "source_status", "reported")
        .line("reliability", 0, "present", "True")
        .line("reliability", 0, "percentage_used", "2")
        .line("reliability", 0, "available_spare", "100")
        .line("reliability", 0, "power_on_hours", "1840")
        .line("reliability", 0, "temperature_c", "38")
        .line("predict", 0, "source_status", "reported")
        .line("predict", 0, "present", "True")
        .line("predict", 0, "predicts_failure", "False")
        .probe();

    assert_eq!(probe.drives.len(), 1);
    assert_eq!(probe.drives[0].percentage_used, Some(2));
    assert_eq!(probe.drives[0].remaining_life_percent, Some(98));
    assert_eq!(probe.drives[0].predicts_failure, Some(false));
    assert!(probe.drives[0].is_scorable());
    assert!(probe.critical_faults().is_empty());
}

#[test]
fn pending_sectors_are_a_critical_fault() {
    let probe = Fixture::new()
        .line("disk", 0, "source_status", "reported")
        .line("disk", 0, "present", "True")
        .line("disk", 0, "model", "ST1000LM035")
        .line("smartdata", 0, "source_status", "reported")
        .line("smartdata", 0, "present", "True")
        .line("smartdata", 0, "reallocated_sectors", "0")
        .line("smartdata", 0, "pending_sectors", "4")
        .line("predict", 0, "source_status", "reported")
        .line("predict", 0, "present", "True")
        .line("predict", 0, "predicts_failure", "False")
        .probe();

    assert_eq!(probe.critical_faults(), vec![CriticalFault::PendingSectorsPresent]);
}

#[test]
fn a_predicted_failure_is_a_critical_fault() {
    let probe = Fixture::new()
        .line("physical", 0, "source_status", "reported")
        .line("physical", 0, "present", "True")
        .line("physical", 0, "model", "WDC HDD")
        .line("predict", 0, "source_status", "reported")
        .line("predict", 0, "present", "True")
        .line("predict", 0, "predicts_failure", "True")
        .probe();

    assert_eq!(probe.critical_faults(), vec![CriticalFault::StoragePredictsFailure]);
}

#[test]
fn identity_without_smart_has_no_scoring_drive() {
    let probe = Fixture::new()
        .line("disk", 0, "source_status", "reported")
        .line("disk", 0, "present", "True")
        .line("disk", 0, "model", "USB Disk")
        .line("reliability", 0, "source_status", "unsupported")
        .line("predict", 0, "source_status", "unsupported")
        .probe();

    assert_eq!(probe.drives[0].model.as_deref(), Some("USB Disk"));
    assert!(!probe.drives[0].is_scorable());
    assert!(probe.scoring_drives().is_empty());
}

#[test]
fn a_refused_reliability_query_is_visible() {
    let probe = Fixture::new()
        .line("disk", 0, "source_status", "reported")
        .line("reliability", 0, "source_status", "permission_denied")
        .line("predict", 0, "source_status", "permission_denied")
        .probe();

    assert!(probe.reliability_refused());
    assert_eq!(
        probe.outcome_for(StorageSource::ReliabilityCounter),
        SourceOutcome::PermissionDenied
    );
    assert!(probe.scoring_drives().is_empty());
}

#[test]
fn usb_stick_is_ignored_when_an_internal_nvme_is_scorable() {
    let probe = Fixture::new()
        .line("physical", 0, "source_status", "reported")
        .line("physical", 0, "present", "True")
        .line("physical", 0, "model", "Internal NVMe")
        .line("physical", 0, "bus_type", "NVMe")
        .line("reliability", 0, "source_status", "reported")
        .line("reliability", 0, "present", "True")
        .line("reliability", 0, "percentage_used", "3")
        .line("reliability", 0, "available_spare", "99")
        .line("physical", 1, "present", "True")
        .line("physical", 1, "model", "SanDisk USB")
        .line("physical", 1, "bus_type", "USB")
        .line("physical", 1, "removable", "True")
        .line("reliability", 1, "present", "True")
        .line("reliability", 1, "percentage_used", "90")
        .probe();

    assert_eq!(probe.scoring_drives().len(), 1);
    assert_eq!(probe.scoring_drives()[0].model.as_deref(), Some("Internal NVMe"));
}

#[test]
fn storage_health_unavailable_off_windows_claims_nothing() {
    let probe = StorageProbe::unavailable("Storage SMART collection is only available on Windows.");

    assert!(probe.drives.is_empty());
    assert!(probe.scoring_drives().is_empty());
    assert!(probe.critical_faults().is_empty());
}

#[test]
fn the_script_never_names_a_destructive_command() {
    let script = STORAGE_SCRIPT;
    for forbidden in [
        "Secure Erase",
        "SECURE_ERASE",
        "Sanitize",
        "IOCTL_STORAGE_PROTOCOL_COMMAND",
        "Format-Volume",
        "Clear-Disk",
        "Initialize-Disk",
        "Optimize-Volume",
        "TRIM",
        "cipher.exe",
    ] {
        assert!(!script.contains(forbidden), "storage script named destructive token {forbidden}");
    }
    assert!(script.contains("Get-StorageReliabilityCounter"));
    assert!(script.contains("MSStorageDriver_FailurePredictStatus"));
}
