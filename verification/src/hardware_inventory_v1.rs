//! Platform-neutral contract for passive hardware inventory.
//!
//! A field either holds a value whose status says where it came from, or holds
//! no value with a status that says why. Nothing here collects anything.
use vstd::prelude::*;
use crate::text::trim;

verus! {

pub const SCHEMA_VERSION: &'static str = "hardware_inventory_v1";

/// The version string recorded as the parser version in provenance.
pub const PARSER_VERSION: &'static str = "0.2.1";

#[derive(Debug, Clone, Copy, PartialEq, Eq, Structural)]
#[non_exhaustive]
pub enum CollectionStatus {
    Reported,
    Observed,
    Derived,
    Unknown,
    NotReported,
    NotApplicable,
    PermissionDenied,
    Unsupported,
    CollectionError,
}

impl CollectionStatus {
    /// The wire value of a status.
    pub open spec fn wire(self) -> Seq<char> {
        match self {
            CollectionStatus::Reported => "reported"@,
            CollectionStatus::Observed => "observed"@,
            CollectionStatus::Derived => "derived"@,
            CollectionStatus::Unknown => "unknown"@,
            CollectionStatus::NotReported => "not_reported"@,
            CollectionStatus::NotApplicable => "not_applicable"@,
            CollectionStatus::PermissionDenied => "permission_denied"@,
            CollectionStatus::Unsupported => "unsupported"@,
            CollectionStatus::CollectionError => "collection_error"@,
        }
    }

    /// A status that asserts a value is present.
    pub open spec fn holds_value(self) -> bool {
        self is Reported || self is Observed || self is Derived
    }

    #[must_use]
    pub fn as_str(self) -> (s: &'static str)
        ensures
            s@ == self.wire(),
    {
        match self {
            CollectionStatus::Reported => "reported",
            CollectionStatus::Observed => "observed",
            CollectionStatus::Derived => "derived",
            CollectionStatus::Unknown => "unknown",
            CollectionStatus::NotReported => "not_reported",
            CollectionStatus::NotApplicable => "not_applicable",
            CollectionStatus::PermissionDenied => "permission_denied",
            CollectionStatus::Unsupported => "unsupported",
            CollectionStatus::CollectionError => "collection_error",
        }
    }

    #[must_use]
    pub fn requires_value(self) -> (r: bool)
        ensures
            r == self.holds_value(),
    {
        match self {
            CollectionStatus::Reported | CollectionStatus::Observed | CollectionStatus::Derived => true,
            _ => false,
        }
    }
}

#[derive(Debug, Clone, Copy, PartialEq, Eq, Structural)]
#[non_exhaustive]
pub enum Confidence {
    High,
    Medium,
    Low,
    Unknown,
}

#[derive(Debug, Clone, Copy, PartialEq, Eq, Structural)]
#[non_exhaustive]
pub enum PermissionState {
    NotRequired,
    Granted,
    Denied,
    Unknown,
}

#[derive(Debug, Clone, Copy, PartialEq, Eq, Structural)]
#[non_exhaustive]
pub enum CollectionSource {
    NativeWindowsApi,
    SetupApiOrPnp,
    CimOrWmi,
    SmbiosOrAcpi,
    PowerShellCimFallback,
    Derived,
    TestFixture,
    Unknown,
}

#[derive(Debug, Clone, Copy, PartialEq, Eq, Structural)]
#[non_exhaustive]
pub enum PrivacyClass {
    NonSensitive,
    OperationalMetadata,
    DeviceIdentifier,
    PotentialPersonalData,
    ProhibitedSecret,
}

impl PrivacyClass {
    #[must_use]
    pub fn allowed_in_hardware_inventory(self) -> (r: bool)
        ensures
            r == !(self is ProhibitedSecret),
    {
        match self {
            PrivacyClass::ProhibitedSecret => false,
            _ => true,
        }
    }
}

/// The diagnostic rendering of every device identifier.
pub const REDACTED_IDENTIFIER: &'static str = "<redacted-device-identifier>";

/// An exact serial, UUID, MAC address, asset tag or hardware identifier.
/// The text is private and reachable only through
/// `expose_for_authorized_use`.
#[derive(Clone)]
pub struct DeviceIdentifier(String);

impl DeviceIdentifier {
    /// The identifier's text.
    pub closed spec fn text(&self) -> Seq<char> {
        self.0@
    }

    /// The trimmed value, or `None` when nothing but whitespace was reported.
    #[must_use]
    pub fn from_reported(value: &str) -> (r: Option<Self>)
        ensures
            r is None <==> trim(value@).len() == 0,
            r matches Some(id) ==> id.text() == trim(value@),
    {
        let chars = crate::text::chars_of(value);
        let trimmed = crate::text::trim_vec(&chars);
        if trimmed.len() == 0 {
            None
        } else {
            Some(DeviceIdentifier(crate::text::string_of(&trimmed)))
        }
    }

    /// What routine diagnostics print for any identifier: never its text.
    #[must_use]
    pub fn redacted_text(&self) -> (s: &'static str)
        ensures
            s@ == REDACTED_IDENTIFIER@,
    {
        REDACTED_IDENTIFIER
    }

    /// Expose only to an explicitly authorized local report or pseudonymization path.
    #[must_use]
    pub fn expose_for_authorized_use(&self) -> (r: &str)
        ensures
            r@ == self.text(),
    {
        self.0.as_str()
    }
}

#[derive(Debug, Clone, PartialEq, Eq)]
pub struct Provenance {
    pub source: CollectionSource,
    pub source_detail: Option<String>,
    pub parser_version: String,
    pub collected_at_unix: u64,
    pub permission: PermissionState,
}

impl Provenance {
    #[must_use]
    pub fn not_collected(collected_at_unix: u64) -> (p: Self)
        ensures
            p.source == CollectionSource::Unknown,
            p.source_detail is None,
            p.parser_version@ == PARSER_VERSION@,
            p.collected_at_unix == collected_at_unix,
            p.permission == PermissionState::Unknown,
    {
        Provenance {
            source: CollectionSource::Unknown,
            source_detail: None,
            parser_version: crate::text::owned(PARSER_VERSION),
            collected_at_unix,
            permission: PermissionState::Unknown,
        }
    }

    /// A copy equal to this provenance.
    #[must_use]
    pub fn duplicate(&self) -> (p: Self)
        ensures
            p == *self,
    {
        let source_detail = match &self.source_detail {
            Some(detail) => Some(detail.clone()),
            None => None,
        };
        Provenance {
            source: self.source,
            source_detail,
            parser_version: self.parser_version.clone(),
            collected_at_unix: self.collected_at_unix,
            permission: self.permission,
        }
    }
}

#[derive(Debug, Clone, PartialEq)]
pub struct InventoryField<T> {
    pub value: Option<T>,
    pub status: CollectionStatus,
    pub confidence: Confidence,
    pub privacy_class: PrivacyClass,
    pub provenance: Provenance,
}

impl<T> InventoryField<T> {
    /// A field is consistent when its privacy class may be held and it holds a
    /// value exactly when its status asserts one.
    pub open spec fn consistent(&self) -> bool {
        &&& !(self.privacy_class is ProhibitedSecret)
        &&& self.status.holds_value() == (self.value is Some)
    }

    #[must_use]
    pub fn reported(
        value: T,
        confidence: Confidence,
        privacy_class: PrivacyClass,
        provenance: Provenance,
    ) -> (f: Self)
        ensures
            f == (InventoryField {
                value: Some(value),
                status: CollectionStatus::Reported,
                confidence,
                privacy_class,
                provenance,
            }),
    {
        InventoryField { value: Some(value), status: CollectionStatus::Reported, confidence, privacy_class, provenance }
    }

    #[must_use]
    pub fn observed(
        value: T,
        confidence: Confidence,
        privacy_class: PrivacyClass,
        provenance: Provenance,
    ) -> (f: Self)
        ensures
            f == (InventoryField {
                value: Some(value),
                status: CollectionStatus::Observed,
                confidence,
                privacy_class,
                provenance,
            }),
    {
        InventoryField { value: Some(value), status: CollectionStatus::Observed, confidence, privacy_class, provenance }
    }

    #[must_use]
    pub fn derived(
        value: T,
        confidence: Confidence,
        privacy_class: PrivacyClass,
        provenance: Provenance,
    ) -> (f: Self)
        ensures
            f == (InventoryField {
                value: Some(value),
                status: CollectionStatus::Derived,
                confidence,
                privacy_class,
                provenance,
            }),
    {
        InventoryField { value: Some(value), status: CollectionStatus::Derived, confidence, privacy_class, provenance }
    }

    #[must_use]
    pub fn unknown(privacy_class: PrivacyClass, provenance: Provenance) -> (f: Self)
        ensures
            f == (InventoryField::<T> {
                value: None,
                status: CollectionStatus::Unknown,
                confidence: Confidence::Unknown,
                privacy_class,
                provenance,
            }),
    {
        InventoryField { value: None, status: CollectionStatus::Unknown, confidence: Confidence::Unknown, privacy_class, provenance }
    }

    #[must_use]
    pub fn not_applicable(privacy_class: PrivacyClass, provenance: Provenance) -> (f: Self)
        ensures
            f == (InventoryField::<T> {
                value: None,
                status: CollectionStatus::NotApplicable,
                confidence: Confidence::High,
                privacy_class,
                provenance,
            }),
    {
        InventoryField { value: None, status: CollectionStatus::NotApplicable, confidence: Confidence::High, privacy_class, provenance }
    }

    #[must_use]
    pub fn is_consistent(&self) -> (r: bool)
        ensures
            r == self.consistent(),
    {
        self.privacy_class.allowed_in_hardware_inventory() && (self.status.requires_value()
            == self.value.is_some())
    }
}

#[derive(Debug, Clone, PartialEq)]
pub struct InventorySection<T> {
    pub status: CollectionStatus,
    pub provenance: Provenance,
    pub records: Vec<T>,
}

impl<T> InventorySection<T> {
    /// A section is consistent when it holds records only under a status that
    /// asserts values.
    pub open spec fn consistent(&self) -> bool {
        self.status.holds_value() || self.records@.len() == 0
    }

    #[must_use]
    pub fn not_reported(provenance: Provenance) -> (s: Self)
        ensures
            s.status == CollectionStatus::NotReported,
            s.provenance == provenance,
            s.records@.len() == 0,
    {
        InventorySection { status: CollectionStatus::NotReported, provenance, records: Vec::new() }
    }

    #[must_use]
    pub fn is_consistent(&self) -> (r: bool)
        ensures
            r == self.consistent(),
    {
        self.status.requires_value() || self.records.len() == 0
    }
}

/// A section is untouched: not reported, with no records.
pub open spec fn untouched<T>(s: InventorySection<T>) -> bool {
    s.status == CollectionStatus::NotReported && s.records@.len() == 0
}

/// Full-charge capacity over design capacity, held exactly.
#[derive(Debug, Clone, Copy, PartialEq, Eq, Structural)]
pub struct Ratio {
    pub numerator: u64,
    pub denominator: u64,
}

#[derive(Debug, Clone, Copy, PartialEq, Eq, Structural)]
#[non_exhaustive]
pub enum DeviceClassification {
    OemReported,
    CustomOrUnidentified,
    Virtual,
    ConflictingFirmwareData,
    Unknown,
}

#[derive(Debug, Clone, Copy, PartialEq, Eq, Structural)]
#[non_exhaustive]
pub enum FormFactor {
    Desktop,
    Laptop,
    Tablet,
    VirtualMachine,
    Unknown,
}

#[derive(Clone)]
pub struct DeviceAndChassisIdentity {
    pub system_manufacturer: InventoryField<String>,
    pub system_model: InventoryField<String>,
    pub system_family: InventoryField<String>,
    pub serial_number: InventoryField<DeviceIdentifier>,
    pub system_uuid: InventoryField<DeviceIdentifier>,
    pub chassis_manufacturer: InventoryField<String>,
    pub chassis_type: InventoryField<String>,
    pub chassis_serial_number: InventoryField<DeviceIdentifier>,
    pub baseboard_manufacturer: InventoryField<String>,
    pub baseboard_product: InventoryField<String>,
    pub baseboard_version: InventoryField<String>,
    pub baseboard_serial_number: InventoryField<DeviceIdentifier>,
    pub asset_tag: InventoryField<DeviceIdentifier>,
    pub form_factor: InventoryField<FormFactor>,
    pub classification: InventoryField<DeviceClassification>,
}

#[derive(Debug, Clone, Copy, PartialEq, Eq, Structural)]
#[non_exhaustive]
pub enum FirmwareMode {
    Uefi,
    LegacyBios,
    Unknown,
}

#[derive(Debug, Clone, PartialEq)]
pub struct FirmwareProfile {
    pub vendor: InventoryField<String>,
    pub version: InventoryField<String>,
    pub release_date: InventoryField<String>,
    pub smbios_version: InventoryField<String>,
    pub mode: InventoryField<FirmwareMode>,
    pub secure_boot_present: InventoryField<bool>,
    pub secure_boot_enabled: InventoryField<bool>,
    pub tpm_present: InventoryField<bool>,
    pub tpm_specification_version: InventoryField<String>,
    pub virtualization_indicator: InventoryField<bool>,
}

#[derive(Debug, Clone, PartialEq)]
pub struct ProcessorProfile {
    pub manufacturer: InventoryField<String>,
    pub model: InventoryField<String>,
    pub architecture: InventoryField<String>,
    pub physical_package_count: InventoryField<u32>,
    pub physical_core_count: InventoryField<u32>,
    pub logical_processor_count: InventoryField<u32>,
    pub maximum_clock_mhz: InventoryField<u32>,
    pub current_clock_mhz: InventoryField<u32>,
    pub address_width_bits: InventoryField<u32>,
    pub virtualization_capable: InventoryField<bool>,
}

#[derive(Debug, Clone, PartialEq)]
pub struct MemorySummary {
    pub installed_physical_bytes: InventoryField<u64>,
    pub visible_physical_bytes: InventoryField<u64>,
    pub physical_slot_count: InventoryField<u32>,
    pub populated_slot_count: InventoryField<u32>,
    pub error_correction_capability: InventoryField<String>,
}

#[derive(Clone)]
pub struct MemoryModule {
    pub locator: InventoryField<String>,
    pub capacity_bytes: InventoryField<u64>,
    pub speed_mhz: InventoryField<u32>,
    pub configured_speed_mhz: InventoryField<u32>,
    pub memory_type: InventoryField<String>,
    pub form_factor: InventoryField<String>,
    pub manufacturer: InventoryField<String>,
    pub part_number: InventoryField<String>,
    pub serial_number: InventoryField<DeviceIdentifier>,
}

pub struct MemoryInventory {
    pub summary: InventorySection<MemorySummary>,
    pub modules: InventorySection<MemoryModule>,
}

#[derive(Debug, Clone, Copy, PartialEq, Eq, Structural)]
#[non_exhaustive]
pub enum StorageMediaKind {
    Hdd,
    Ssd,
    Nvme,
    Removable,
    Unknown,
}

#[derive(Clone)]
pub struct StorageDevice {
    pub index: InventoryField<u32>,
    pub manufacturer: InventoryField<String>,
    pub model: InventoryField<String>,
    pub serial_number: InventoryField<DeviceIdentifier>,
    pub firmware_revision: InventoryField<String>,
    pub size_bytes: InventoryField<u64>,
    pub interface_type: InventoryField<String>,
    pub media_kind: InventoryField<StorageMediaKind>,
    pub operational_status: InventoryField<String>,
    pub sanitization_capability_hint: InventoryField<String>,
}

#[derive(Debug, Clone, PartialEq)]
pub struct LogicalVolume {
    pub mount_point: InventoryField<String>,
    pub file_system: InventoryField<String>,
    pub capacity_bytes: InventoryField<u64>,
    pub free_bytes: InventoryField<u64>,
    pub windows_health_status: InventoryField<String>,
    pub bitlocker_protection_status: InventoryField<String>,
}

pub struct StorageInventory {
    pub devices: InventorySection<StorageDevice>,
    pub volumes: InventorySection<LogicalVolume>,
}

#[derive(Debug, Clone, PartialEq)]
pub struct GraphicsAdapter {
    pub manufacturer: InventoryField<String>,
    pub model: InventoryField<String>,
    pub adapter_memory_bytes: InventoryField<u64>,
    pub driver_version: InventoryField<String>,
}

#[derive(Clone)]
pub struct DisplayDevice {
    pub manufacturer: InventoryField<String>,
    pub model: InventoryField<String>,
    pub serial_number: InventoryField<DeviceIdentifier>,
    pub native_resolution: InventoryField<String>,
    pub current_resolution: InventoryField<String>,
    pub internal_display: InventoryField<bool>,
}

pub struct GraphicsInventory {
    pub adapters: InventorySection<GraphicsAdapter>,
    pub displays: InventorySection<DisplayDevice>,
}

/// Battery identity and capacities. The health ratio is the exact quotient
/// full-charge capacity over design capacity.
#[derive(Clone)]
pub struct BatteryProfile {
    pub present: InventoryField<bool>,
    pub manufacturer: InventoryField<String>,
    pub model: InventoryField<String>,
    pub serial_number: InventoryField<DeviceIdentifier>,
    pub chemistry: InventoryField<String>,
    pub designed_capacity_mwh: InventoryField<u64>,
    pub full_charge_capacity_mwh: InventoryField<u64>,
    pub remaining_capacity_mwh: InventoryField<u64>,
    pub cycle_count: InventoryField<u32>,
    pub charge_status: InventoryField<String>,
    pub health_ratio: InventoryField<Ratio>,
}

#[derive(Debug, Clone, Copy, PartialEq, Eq, PartialOrd, Ord, Structural)]
#[non_exhaustive]
pub enum PortCategory {
    UsbA,
    UsbC,
    Usb4OrThunderbolt,
    Hdmi,
    DisplayPort,
    Ethernet,
    Audio,
    Serial,
    Parallel,
    Docking,
    CardReader,
    Other,
}

#[derive(Debug, Clone, Copy, PartialEq, Eq, Structural)]
#[non_exhaustive]
pub enum PortCountKind {
    PhysicalConnector,
    LogicalController,
    Hub,
    AttachedDevice,
}

#[derive(Clone)]
pub struct PortRecord {
    pub category: PortCategory,
    pub count_kind: PortCountKind,
    pub count: InventoryField<u32>,
    pub manufacturer: InventoryField<String>,
    pub model: InventoryField<String>,
    pub hardware_identifier: InventoryField<DeviceIdentifier>,
}

#[derive(Debug, Clone, Copy, PartialEq, Eq, Structural)]
#[non_exhaustive]
pub enum SensorCategory {
    Accelerometer,
    Gyroscope,
    Orientation,
    AmbientLight,
    Proximity,
    MagnetometerOrCompass,
    LocationCapability,
    Lid,
    TabletMode,
    BiometricReader,
    Camera,
    Microphone,
    Other,
}

#[derive(Clone)]
pub struct SensorPresence {
    pub category: SensorCategory,
    pub present: InventoryField<bool>,
    pub manufacturer: InventoryField<String>,
    pub model: InventoryField<String>,
    pub hardware_identifier: InventoryField<DeviceIdentifier>,
    pub driver_provider: InventoryField<String>,
    pub driver_version: InventoryField<String>,
    pub availability: InventoryField<String>,
}

#[derive(Debug, Clone, Copy, PartialEq, Eq, Structural)]
#[non_exhaustive]
pub enum NetworkCategory {
    Ethernet,
    Wifi,
    Bluetooth,
    CellularOrWwan,
    Nfc,
    Other,
}

#[derive(Clone)]
pub struct NetworkAdapter {
    pub category: NetworkCategory,
    pub manufacturer: InventoryField<String>,
    pub model: InventoryField<String>,
    pub hardware_identifier: InventoryField<DeviceIdentifier>,
    pub mac_address: InventoryField<DeviceIdentifier>,
    pub driver_version: InventoryField<String>,
}

#[derive(Debug, Clone, Copy, PartialEq, Eq, Structural)]
#[non_exhaustive]
pub enum PeripheralCategory {
    AudioController,
    ImagingDevice,
    Keyboard,
    Mouse,
    Touch,
    Pen,
    OpticalDrive,
    CardReader,
    DockingStation,
    Tpm,
    SmartCardReader,
    Other,
}

#[derive(Clone)]
pub struct PeripheralDevice {
    pub category: PeripheralCategory,
    pub present: InventoryField<bool>,
    pub manufacturer: InventoryField<String>,
    pub model: InventoryField<String>,
    pub hardware_identifier: InventoryField<DeviceIdentifier>,
    pub driver_version: InventoryField<String>,
}

pub struct HardwareInventoryV1 {
    pub schema_version: &'static str,
    pub collected_at_unix: u64,
    pub device_and_chassis: InventorySection<DeviceAndChassisIdentity>,
    pub firmware: InventorySection<FirmwareProfile>,
    pub processors: InventorySection<ProcessorProfile>,
    pub memory: MemoryInventory,
    pub storage: StorageInventory,
    pub graphics: GraphicsInventory,
    pub batteries: InventorySection<BatteryProfile>,
    pub ports: InventorySection<PortRecord>,
    pub sensors: InventorySection<SensorPresence>,
    pub network: InventorySection<NetworkAdapter>,
    pub peripherals: InventorySection<PeripheralDevice>,
}

impl HardwareInventoryV1 {
    /// Every section not reported and empty.
    pub open spec fn all_untouched(&self) -> bool {
        &&& untouched(self.device_and_chassis)
        &&& untouched(self.firmware)
        &&& untouched(self.processors)
        &&& untouched(self.memory.summary)
        &&& untouched(self.memory.modules)
        &&& untouched(self.storage.devices)
        &&& untouched(self.storage.volumes)
        &&& untouched(self.graphics.adapters)
        &&& untouched(self.graphics.displays)
        &&& untouched(self.batteries)
        &&& untouched(self.ports)
        &&& untouched(self.sensors)
        &&& untouched(self.network)
        &&& untouched(self.peripherals)
    }

    /// Honest initial state used before passive collectors are implemented.
    #[must_use]
    pub fn not_collected(collected_at_unix: u64) -> (inv: Self)
        ensures
            inv.schema_version@ == SCHEMA_VERSION@,
            inv.collected_at_unix == collected_at_unix,
            inv.all_untouched(),
    {
        let p = Provenance::not_collected(collected_at_unix);
        HardwareInventoryV1 {
            schema_version: SCHEMA_VERSION,
            collected_at_unix,
            device_and_chassis: InventorySection::not_reported(p.duplicate()),
            firmware: InventorySection::not_reported(p.duplicate()),
            processors: InventorySection::not_reported(p.duplicate()),
            memory: MemoryInventory {
                summary: InventorySection::not_reported(p.duplicate()),
                modules: InventorySection::not_reported(p.duplicate()),
            },
            storage: StorageInventory {
                devices: InventorySection::not_reported(p.duplicate()),
                volumes: InventorySection::not_reported(p.duplicate()),
            },
            graphics: GraphicsInventory {
                adapters: InventorySection::not_reported(p.duplicate()),
                displays: InventorySection::not_reported(p.duplicate()),
            },
            batteries: InventorySection::not_reported(p.duplicate()),
            ports: InventorySection::not_reported(p.duplicate()),
            sensors: InventorySection::not_reported(p.duplicate()),
            network: InventorySection::not_reported(p.duplicate()),
            peripherals: InventorySection::not_reported(p),
        }
    }
}

/// The firmware-reported battery health ratio, without testing the battery.
/// A missing or zero capacity is unknown, never zero or failed.
#[must_use]
pub fn derive_battery_health_ratio(
    designed_capacity_mwh: &InventoryField<u64>,
    full_charge_capacity_mwh: &InventoryField<u64>,
    provenance: Provenance,
) -> (f: InventoryField<Ratio>)
    ensures
        f.privacy_class == PrivacyClass::OperationalMetadata,
        f.provenance == provenance,
        match (designed_capacity_mwh.value, full_charge_capacity_mwh.value) {
            (Some(d), Some(c)) if d > 0 && c > 0 => {
                &&& f.status == CollectionStatus::Derived
                &&& f.confidence == Confidence::Medium
                &&& f.value == Some(Ratio { numerator: c, denominator: d })
            },
            _ => f.status == CollectionStatus::Unknown && f.value is None,
        },
{
    match (designed_capacity_mwh.value, full_charge_capacity_mwh.value) {
        (Some(designed), Some(full_charge)) if designed > 0 && full_charge > 0 => {
            InventoryField::derived(
                Ratio { numerator: full_charge, denominator: designed },
                Confidence::Medium,
                PrivacyClass::OperationalMetadata,
                provenance,
            )
        },
        _ => InventoryField::unknown(PrivacyClass::OperationalMetadata, provenance),
    }
}

} // verus!
