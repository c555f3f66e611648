use vstd::prelude::*;

pub mod text;
pub mod numtext;
pub mod json;
pub mod hardware_inventory_v1;
pub mod hardware_diagnostics_v1;
pub mod diagnostics;
pub mod report_signing;
pub mod purge;
pub mod live_intake;
pub mod probe_protocol;
pub mod capture_probe;
pub mod battery_probe;
pub mod cpu_memory;
pub mod usb_topology;
pub mod display_radio;
pub mod storage_health;
pub mod assessment;
pub mod evidence;
pub mod device;
pub mod user_profiles;
pub mod volume;
pub mod storage;
pub mod cpu;
pub mod os;
pub mod encryption;
pub mod personal_data;
pub mod application_data;
pub mod pdem;
pub mod report;
pub mod scan;
pub mod hardware_validation;
pub mod customer_fields;
pub mod customer;
pub mod advance_bench;
pub mod telemetry;
pub mod power_identity;
pub mod connectivity;
pub mod progress;
pub mod collector_runtime;
pub mod probe_runs;
pub mod advance;

pub use customer::{customer_verification, selected_letters, CustomerVerification};

pub use scan::{
    filter_volumes, letter_key, path_matches_letters, paths_on_letters, profile_paths, run_scan_selected,
    format_drive_size, run_scan_with, scan_targets, scanned_drive_label, volume_roots,
    NoProgress, PlatformAdapter, ScanProgress, ScanResult,
};


verus! {

/// A labelled, customer-safe value printed on a report.
#[derive(Debug, Clone)]
pub struct NamedValue {
    pub label: String,
    pub value: String,
}

#[derive(Debug, Clone, Copy, PartialEq, Eq, Structural)]
#[non_exhaustive]
pub enum CollectorName {
    Device,
    OperatingSystem,
    Processor,
    Storage,
    Volumes,
    Encryption,
    UserProfiles,
    PersonalData,
    ApplicationData,
    HardwareInventory,
}

#[derive(Debug, Clone, Copy, PartialEq, Eq, Structural)]
#[non_exhaustive]
pub enum CollectorErrorKind {
    Unsupported,
    PermissionDenied,
    CommandFailed,
    ParseFailed,
    Cancelled,
    TimedOut,
    OutputLimitExceeded,
    Internal,
}

/// Typed collector failure, with a message that is safe to show a customer.
#[derive(Debug, Clone, PartialEq, Eq)]
pub struct CollectorError {
    pub collector: CollectorName,
    pub kind: CollectorErrorKind,
    pub safe_message: String,
}

/// A drive the customer may choose to include in an assessment.
#[derive(Debug, Clone)]
pub struct ScanTarget {
    pub letter: String,
    pub label: String,
    pub kind: String,
    pub size_label: String,
    pub default_selected: bool,
    pub hint: String,
}

} // verus!
