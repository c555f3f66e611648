//! The hardware-validation verdict on a passive inventory, shared by the
//! internal command line and the customer screen. It reads the inventory
//! only; it never runs anything.

use vstd::prelude::*;
use crate::hardware_inventory_v1::{
    CollectionStatus, DeviceAndChassisIdentity, DeviceClassification, FirmwareMode, FirmwareProfile,
    FormFactor, HardwareInventoryV1, InventoryField, InventorySection, MemoryModule, MemorySummary,
    ProcessorProfile, SCHEMA_VERSION,
};
use crate::numtext::{dec, push_dec};
use crate::report::{bool_text, push_bool};
use crate::text::{
    append_all, append_str, chars_of, collapse_ws, collapse_ws_vec, is_control, string_of, string_views,
};

verus! {

pub const VALIDATOR_NAME: &'static str = "cyvra_w1_3c_hardware_validation";

/// The validator's version, that of this library.
pub const VALIDATOR_VERSION: &'static str = "0.2.1";

/// The verdict and the `key=value` lines printed for it.
#[derive(Debug, Clone)]
pub struct ValidationReport {
    pub lines: Vec<String>,
    pub passed: bool,
}

/// Control characters and the `=` and `|` separators become spaces.
pub open spec fn scrub(c: char) -> char {
    if is_control(c) || c == '=' || c == '|' {
        ' '
    } else {
        c
    }
}

/// Text made safe for one `key=value` line: separators and control
/// characters blanked, cut to 160 characters, whitespace runs collapsed.
pub open spec fn flatten(s: Seq<char>) -> Seq<char> {
    let m = s.map_values(|c: char| scrub(c));
    collapse_ws(
        if m.len() <= 160 {
            m
        } else {
            m.take(160)
        },
    )
}

pub fn flatten_text(value: &str) -> (out: String)
    ensures
        out@ == flatten(value@),
{
    let v = chars_of(value);
    let mut m: Vec<char> = Vec::new();
    let mut i: usize = 0;
    while i < v.len() && i < 160
        invariant
            i <= v@.len(),
            i <= 160,
            v@ == value@,
            m@ == value@.map_values(|c: char| scrub(c)).take(i as int),
        decreases v.len() - i,
    {
        let c = v[i];
        let s = if c <= '\u{1f}' || ('\u{7f}' <= c && c <= '\u{9f}') || c == '=' || c == '|' {
            ' '
        } else {
            c
        };
        m.push(s);
        i += 1;
        assert(m@ =~= value@.map_values(|c: char| scrub(c)).take(i as int));
    }
    let ghost full = value@.map_values(|c: char| scrub(c));
    assert(m@ =~= (if full.len() <= 160 {
        full
    } else {
        full.take(160)
    }));
    string_of(&collapse_ws_vec(&m))
}

/// How a field is shown: its status, then `|` and its text when it holds one.
pub open spec fn shown(status: CollectionStatus, text: Option<Seq<char>>) -> Seq<char> {
    match text {
        Some(t) => status.wire() + "|"@ + flatten(t),
        None => status.wire(),
    }
}

/// How a field with a named value is shown: the name is printed as it is.
pub open spec fn shown_name(status: CollectionStatus, name: Option<Seq<char>>) -> Seq<char> {
    match name {
        Some(n) => status.wire() + "|"@ + n,
        None => status.wire(),
    }
}

pub open spec fn string_text(f: InventoryField<String>) -> Option<Seq<char>> {
    match f.value {
        Some(v) => Some(v@),
        None => None,
    }
}

pub open spec fn u32_text(f: InventoryField<u32>) -> Option<Seq<char>> {
    match f.value {
        Some(v) => Some(dec(v as nat)),
        None => None,
    }
}

pub open spec fn u64_text(f: InventoryField<u64>) -> Option<Seq<char>> {
    match f.value {
        Some(v) => Some(dec(v as nat)),
        None => None,
    }
}

pub open spec fn bool_field_text(f: InventoryField<bool>) -> Option<Seq<char>> {
    match f.value {
        Some(v) => Some(bool_text(v)),
        None => None,
    }
}

fn show(status: CollectionStatus, text: Option<Vec<char>>) -> (out: Vec<char>)
    ensures
        out@ == shown(
            status,
            match text {
                Some(t) => Some(t@),
                None => None,
            },
        ),
{
    let mut out = chars_of(status.as_str());
    match text {
        Some(t) => {
            append_str(&mut out, "|");
            let f = flatten_text(string_of(&t).as_str());
            append_all(&mut out, &chars_of(f.as_str()));
        },
        None => {},
    }
    out
}

fn show_string(f: &InventoryField<String>) -> (out: Vec<char>)
    ensures
        out@ == shown(f.status, string_text(*f)),
{
    match &f.value {
        Some(v) => show(f.status, Some(chars_of(v.as_str()))),
        None => show(f.status, None),
    }
}

fn show_u32(f: &InventoryField<u32>) -> (out: Vec<char>)
    ensures
        out@ == shown(f.status, u32_text(*f)),
{
    match f.value {
        Some(v) => {
            let mut d: Vec<char> = Vec::new();
            push_dec(&mut d, v as u64);
            assert(d@ =~= dec(v as nat));
            show(f.status, Some(d))
        },
        None => show(f.status, None),
    }
}

fn show_u64(f: &InventoryField<u64>) -> (out: Vec<char>)
    ensures
        out@ == shown(f.status, u64_text(*f)),
{
    match f.value {
        Some(v) => {
            let mut d: Vec<char> = Vec::new();
            push_dec(&mut d, v);
            assert(d@ =~= dec(v as nat));
            show(f.status, Some(d))
        },
        None => show(f.status, None),
    }
}

fn show_bool(f: &InventoryField<bool>) -> (out: Vec<char>)
    ensures
        out@ == shown(f.status, bool_field_text(*f)),
{
    match f.value {
        Some(v) => {
            let mut d: Vec<char> = Vec::new();
            push_bool(&mut d, v);
            assert(d@ =~= bool_text(v));
            show(f.status, Some(d))
        },
        None => show(f.status, None),
    }
}

fn show_name(status: CollectionStatus, name: Option<&'static str>) -> (out: Vec<char>)
    ensures
        out@ == shown_name(
            status,
            match name {
                Some(n) => Some(n@),
                None => None,
            },
        ),
{
    let mut out = chars_of(status.as_str());
    match name {
        Some(n) => {
            append_str(&mut out, "|");
            append_str(&mut out, n);
        },
        None => {},
    }
    out
}

pub open spec fn classification_text(v: DeviceClassification) -> Seq<char> {
    match v {
        DeviceClassification::OemReported => "oem_reported"@,
        DeviceClassification::CustomOrUnidentified => "custom_or_unidentified"@,
        DeviceClassification::Virtual => "virtual"@,
        DeviceClassification::ConflictingFirmwareData => "conflicting_firmware_data"@,
        DeviceClassification::Unknown => "unknown"@,
    }
}

pub fn classification_name(v: DeviceClassification) -> (s: &'static str)
    ensures
        s@ == classification_text(v),
{
    match v {
        DeviceClassification::OemReported => "oem_reported",
        DeviceClassification::CustomOrUnidentified => "custom_or_unidentified",
        DeviceClassification::Virtual => "virtual",
        DeviceClassification::ConflictingFirmwareData => "conflicting_firmware_data",
        DeviceClassification::Unknown => "unknown",
    }
}

pub open spec fn form_factor_text(v: FormFactor) -> Seq<char> {
    match v {
        FormFactor::Desktop => "desktop"@,
        FormFactor::Laptop => "laptop"@,
        FormFactor::Tablet => "tablet"@,
        FormFactor::VirtualMachine => "virtual_machine"@,
        FormFactor::Unknown => "unknown"@,
    }
}

pub fn form_factor_name(v: FormFactor) -> (s: &'static str)
    ensures
        s@ == form_factor_text(v),
{
    match v {
        FormFactor::Desktop => "desktop",
        FormFactor::Laptop => "laptop",
        FormFactor::Tablet => "tablet",
        FormFactor::VirtualMachine => "virtual_machine",
        FormFactor::Unknown => "unknown",
    }
}

pub open spec fn firmware_mode_text(v: FirmwareMode) -> Seq<char> {
    match v {
        FirmwareMode::Uefi => "uefi"@,
        FirmwareMode::LegacyBios => "legacy_bios"@,
        FirmwareMode::Unknown => "unknown"@,
    }
}

pub fn firmware_mode_name(v: FirmwareMode) -> (s: &'static str)
    ensures
        s@ == firmware_mode_text(v),
{
    match v {
        FirmwareMode::Uefi => "uefi",
        FirmwareMode::LegacyBios => "legacy_bios",
        FirmwareMode::Unknown => "unknown",
    }
}

// ---- the verdict ----

pub open spec fn device_fields_ok(r: DeviceAndChassisIdentity) -> bool {
    &&& r.system_manufacturer.consistent()
    &&& r.system_model.consistent()
    &&& r.system_family.consistent()
    &&& r.serial_number.consistent()
    &&& r.system_uuid.consistent()
    &&& r.chassis_manufacturer.consistent()
    &&& r.chassis_type.consistent()
    &&& r.chassis_serial_number.consistent()
    &&& r.baseboard_manufacturer.consistent()
    &&& r.baseboard_product.consistent()
    &&& r.baseboard_version.consistent()
    &&& r.baseboard_serial_number.consistent()
    &&& r.asset_tag.consistent()
    &&& r.form_factor.consistent()
    &&& r.classification.consistent()
}

pub open spec fn firmware_fields_ok(r: FirmwareProfile) -> bool {
    &&& r.vendor.consistent()
    &&& r.version.consistent()
    &&& r.release_date.consistent()
    &&& r.smbios_version.consistent()
    &&& r.mode.consistent()
    &&& r.secure_boot_present.consistent()
    &&& r.secure_boot_enabled.consistent()
    &&& r.tpm_present.consistent()
    &&& r.tpm_specification_version.consistent()
    &&& r.virtualization_indicator.consistent()
}

pub open spec fn processor_fields_ok(r: ProcessorProfile) -> bool {
    &&& r.manufacturer.consistent()
    &&& r.model.consistent()
    &&& r.architecture.consistent()
    &&& r.physical_package_count.consistent()
    &&& r.physical_core_count.consistent()
    &&& r.logical_processor_count.consistent()
    &&& r.maximum_clock_mhz.consistent()
    &&& r.current_clock_mhz.consistent()
    &&& r.address_width_bits.consistent()
    &&& r.virtualization_capable.consistent()
}

pub open spec fn summary_fields_ok(r: MemorySummary) -> bool {
    &&& r.installed_physical_bytes.consistent()
    &&& r.visible_physical_bytes.consistent()
    &&& r.physical_slot_count.consistent()
    &&& r.populated_slot_count.consistent()
    &&& r.error_correction_capability.consistent()
}

pub open spec fn module_fields_ok(r: MemoryModule) -> bool {
    &&& r.locator.consistent()
    &&& r.capacity_bytes.consistent()
    &&& r.speed_mhz.consistent()
    &&& r.configured_speed_mhz.consistent()
    &&& r.memory_type.consistent()
    &&& r.form_factor.consistent()
    &&& r.manufacturer.consistent()
    &&& r.part_number.consistent()
    &&& r.serial_number.consistent()
}

/// Every field of every record in the requested sections is consistent.
pub open spec fn fields_consistent(inv: HardwareInventoryV1) -> bool {
    &&& forall|i: int|
        0 <= i < inv.device_and_chassis.records@.len() ==> device_fields_ok(
            #[trigger] inv.device_and_chassis.records@[i],
        )
    &&& forall|i: int| 0 <= i < inv.firmware.records@.len() ==> firmware_fields_ok(#[trigger] inv.firmware.records@[i])
    &&& forall|i: int|
        0 <= i < inv.processors.records@.len() ==> processor_fields_ok(#[trigger] inv.processors.records@[i])
    &&& forall|i: int|
        0 <= i < inv.memory.summary.records@.len() ==> summary_fields_ok(
            #[trigger] inv.memory.summary.records@[i],
        )
    &&& forall|i: int|
        0 <= i < inv.memory.modules.records@.len() ==> module_fields_ok(#[trigger] inv.memory.modules.records@[i])
}

/// The requested sections hold records only under a value status.
pub open spec fn sections_consistent(inv: HardwareInventoryV1) -> bool {
    &&& inv.device_and_chassis.consistent()
    &&& inv.firmware.consistent()
    &&& inv.processors.consistent()
    &&& inv.memory.summary.consistent()
    &&& inv.memory.modules.consistent()
}

pub open spec fn reported_with_records<T>(s: InventorySection<T>) -> bool {
    s.status == CollectionStatus::Reported && s.records@.len() > 0
}

/// Every requested section was reported with at least one record.
pub open spec fn coverage_complete(inv: HardwareInventoryV1) -> bool {
    &&& reported_with_records(inv.device_and_chassis)
    &&& reported_with_records(inv.firmware)
    &&& reported_with_records(inv.processors)
    &&& reported_with_records(inv.memory.summary)
    &&& reported_with_records(inv.memory.modules)
}

/// The sections this validator defers are still untouched.
pub open spec fn deferred_untouched(inv: HardwareInventoryV1) -> bool {
    &&& crate::hardware_inventory_v1::untouched(inv.storage.devices)
    &&& crate::hardware_inventory_v1::untouched(inv.storage.volumes)
    &&& crate::hardware_inventory_v1::untouched(inv.graphics.adapters)
    &&& crate::hardware_inventory_v1::untouched(inv.graphics.displays)
    &&& crate::hardware_inventory_v1::untouched(inv.network)
    &&& crate::hardware_inventory_v1::untouched(inv.peripherals)
}

/// The inventory passes when its schema and time are valid, its requested
/// sections and fields are consistent and complete, and the deferred
/// sections are untouched.
pub open spec fn passes(inv: HardwareInventoryV1) -> bool {
    &&& inv.schema_version@ == SCHEMA_VERSION@
    &&& inv.collected_at_unix > 0
    &&& fields_consistent(inv)
    &&& sections_consistent(inv)
    &&& coverage_complete(inv)
    &&& deferred_untouched(inv)
}

fn device_ok(r: &DeviceAndChassisIdentity) -> (ok: bool)
    ensures
        ok == device_fields_ok(*r),
{
    r.system_manufacturer.is_consistent() && r.system_model.is_consistent() && r.system_family.is_consistent()
        && r.serial_number.is_consistent() && r.system_uuid.is_consistent()
        && r.chassis_manufacturer.is_consistent() && r.chassis_type.is_consistent()
        && r.chassis_serial_number.is_consistent() && r.baseboard_manufacturer.is_consistent()
        && r.baseboard_product.is_consistent() && r.baseboard_version.is_consistent()
        && r.baseboard_serial_number.is_consistent() && r.asset_tag.is_consistent()
        && r.form_factor.is_consistent() && r.classification.is_consistent()
}

fn firmware_ok(r: &FirmwareProfile) -> (ok: bool)
    ensures
        ok == firmware_fields_ok(*r),
{
    r.vendor.is_consistent() && r.version.is_consistent() && r.release_date.is_consistent()
        && r.smbios_version.is_consistent() && r.mode.is_consistent() && r.secure_boot_present.is_consistent()
        && r.secure_boot_enabled.is_consistent() && r.tpm_present.is_consistent()
        && r.tpm_specification_version.is_consistent() && r.virtualization_indicator.is_consistent()
}

fn processor_ok(r: &ProcessorProfile) -> (ok: bool)
    ensures
        ok == processor_fields_ok(*r),
{
    r.manufacturer.is_consistent() && r.model.is_consistent() && r.architecture.is_consistent()
        && r.physical_package_count.is_consistent() && r.physical_core_count.is_consistent()
        && r.logical_processor_count.is_consistent() && r.maximum_clock_mhz.is_consistent()
        && r.current_clock_mhz.is_consistent() && r.address_width_bits.is_consistent()
        && r.virtualization_capable.is_consistent()
}

fn summary_ok(r: &MemorySummary) -> (ok: bool)
    ensures
        ok == summary_fields_ok(*r),
{
    r.installed_physical_bytes.is_consistent() && r.visible_physical_bytes.is_consistent()
        && r.physical_slot_count.is_consistent() && r.populated_slot_count.is_consistent()
        && r.error_correction_capability.is_consistent()
}

fn module_ok(r: &MemoryModule) -> (ok: bool)
    ensures
        ok == module_fields_ok(*r),
{
    r.locator.is_consistent() && r.capacity_bytes.is_consistent() && r.speed_mhz.is_consistent()
        && r.configured_speed_mhz.is_consistent() && r.memory_type.is_consistent()
        && r.form_factor.is_consistent() && r.manufacturer.is_consistent() && r.part_number.is_consistent()
        && r.serial_number.is_consistent()
}

#[verifier::loop_isolation(false)]
fn requested_fields_are_consistent(inv: &HardwareInventoryV1) -> (ok: bool)
    ensures
        ok == fields_consistent(*inv),
{
    let d = &inv.device_and_chassis.records;
    let mut i: usize = 0;
    while i < d.len()
        invariant
            i <= d@.len(),
            forall|k: int| 0 <= k < i ==> device_fields_ok(#[trigger] d@[k]),
        decreases d.len() - i,
    {
        if !device_ok(&d[i]) {
            assert(!device_fields_ok(d@[i as int]));
            return false;
        }
        i += 1;
    }
    let f = &inv.firmware.records;
    let mut i: usize = 0;
    while i < f.len()
        invariant
            i <= f@.len(),
            forall|k: int| 0 <= k < i ==> firmware_fields_ok(#[trigger] f@[k]),
        decreases f.len() - i,
    {
        if !firmware_ok(&f[i]) {
            assert(!firmware_fields_ok(f@[i as int]));
            return false;
        }
        i += 1;
    }
    let p = &inv.processors.records;
    let mut i: usize = 0;
    while i < p.len()
        invariant
            i <= p@.len(),
            forall|k: int| 0 <= k < i ==> processor_fields_ok(#[trigger] p@[k]),
        decreases p.len() - i,
    {
        if !processor_ok(&p[i]) {
            assert(!processor_fields_ok(p@[i as int]));
            return false;
        }
        i += 1;
    }
    let s = &inv.memory.summary.records;
    let mut i: usize = 0;
    while i < s.len()
        invariant
            i <= s@.len(),
            forall|k: int| 0 <= k < i ==> summary_fields_ok(#[trigger] s@[k]),
        decreases s.len() - i,
    {
        if !summary_ok(&s[i]) {
            assert(!summary_fields_ok(s@[i as int]));
            return false;
        }
        i += 1;
    }
    let m = &inv.memory.modules.records;
    let mut i: usize = 0;
    while i < m.len()
        invariant
            i <= m@.len(),
            forall|k: int| 0 <= k < i ==> module_fields_ok(#[trigger] m@[k]),
        decreases m.len() - i,
    {
        if !module_ok(&m[i]) {
            assert(!module_fields_ok(m@[i as int]));
            return false;
        }
        i += 1;
    }
    true
}

fn is_reported(status: CollectionStatus) -> (r: bool)
    ensures
        r == (status == CollectionStatus::Reported),
{
    match status {
        CollectionStatus::Reported => true,
        _ => false,
    }
}

fn is_not_reported(status: CollectionStatus) -> (r: bool)
    ensures
        r == (status == CollectionStatus::NotReported),
{
    match status {
        CollectionStatus::NotReported => true,
        _ => false,
    }
}

fn requested_sections_have_records(inv: &HardwareInventoryV1) -> (ok: bool)
    ensures
        ok == coverage_complete(*inv),
{
    is_reported(inv.device_and_chassis.status) && inv.device_and_chassis.records.len() > 0
        && is_reported(inv.firmware.status) && inv.firmware.records.len() > 0
        && is_reported(inv.processors.status) && inv.processors.records.len() > 0
        && is_reported(inv.memory.summary.status) && inv.memory.summary.records.len() > 0
        && is_reported(inv.memory.modules.status) && inv.memory.modules.records.len() > 0
}

fn deferred_sections_are_untouched(inv: &HardwareInventoryV1) -> (ok: bool)
    ensures
        ok == deferred_untouched(*inv),
{
    is_not_reported(inv.storage.devices.status) && inv.storage.devices.records.len() == 0
        && is_not_reported(inv.storage.volumes.status) && inv.storage.volumes.records.len() == 0
        && is_not_reported(inv.graphics.adapters.status) && inv.graphics.adapters.records.len() == 0
        && is_not_reported(inv.graphics.displays.status) && inv.graphics.displays.records.len() == 0
        && is_not_reported(inv.network.status) && inv.network.records.len() == 0
        && is_not_reported(inv.peripherals.status) && inv.peripherals.records.len() == 0
}

fn requested_sections_are_consistent(inv: &HardwareInventoryV1) -> (ok: bool)
    ensures
        ok == sections_consistent(*inv),
{
    inv.device_and_chassis.is_consistent() && inv.firmware.is_consistent() && inv.processors.is_consistent()
        && inv.memory.summary.is_consistent() && inv.memory.modules.is_consistent()
}

// ---- the report lines ----

/// One `key=value` line.
pub open spec fn kv(key: Seq<char>, value: Seq<char>) -> Seq<char> {
    key + "="@ + value
}

fn push_kv(lines: &mut Vec<String>, key: &str, value: &Vec<char>)
    ensures
        string_views(final(lines)@) == string_views(old(lines)@).push(kv(key@, value@)),
{
    let mut l = chars_of(key);
    append_str(&mut l, "=");
    append_all(&mut l, value);
    let ghost before = string_views(lines@);
    let ghost lv = l@;
    lines.push(string_of(&l));
    assert(string_views(lines@) =~= before.push(lv));
}

fn push_line(lines: &mut Vec<String>, line: &str)
    ensures
        string_views(final(lines)@) == string_views(old(lines)@).push(line@),
{
    let ghost before = string_views(lines@);
    lines.push(crate::text::owned(line));
    assert(string_views(lines@) =~= before.push(line@));
}

fn number(n: u64) -> (out: Vec<char>)
    ensures
        out@ == dec(n as nat),
{
    let mut out: Vec<char> = Vec::new();
    push_dec(&mut out, n);
    assert(out@ =~= dec(n as nat));
    out
}

/// The lines every report starts with.
pub open spec fn preamble() -> Seq<Seq<char>> {
    seq![
        kv("validator"@, VALIDATOR_NAME@),
        kv("validator_version"@, VALIDATOR_VERSION@),
        "mode=passive_read_only"@,
        "destructive_operations=false"@,
        "identifiers=redacted"@,
    ]
}

pub open spec fn device_lines(inv: HardwareInventoryV1) -> Seq<Seq<char>> {
    let d = inv.device_and_chassis;
    seq![
        kv("schema_version"@, inv.schema_version@),
        kv("collected_at_unix"@, dec(inv.collected_at_unix as nat)),
        kv("device_section_status"@, d.status.wire()),
        kv("device_record_count"@, dec(d.records@.len())),
    ] + if d.records@.len() > 0 {
        let r = d.records@[0];
        seq![
            kv("system_manufacturer"@, shown(r.system_manufacturer.status, string_text(r.system_manufacturer))),
            kv("system_model"@, shown(r.system_model.status, string_text(r.system_model))),
            kv(
                "device_classification"@,
                shown_name(
                    r.classification.status,
                    match r.classification.value {
                        Some(v) => Some(classification_text(v)),
                        None => None,
                    },
                ),
            ),
            kv(
                "form_factor"@,
                shown_name(
                    r.form_factor.status,
                    match r.form_factor.value {
                        Some(v) => Some(form_factor_text(v)),
                        None => None,
                    },
                ),
            ),
        ]
    } else {
        Seq::empty()
    }
}

pub open spec fn firmware_lines(inv: HardwareInventoryV1) -> Seq<Seq<char>> {
    let f = inv.firmware;
    seq![
        kv("firmware_section_status"@, f.status.wire()),
        kv("firmware_record_count"@, dec(f.records@.len())),
    ] + if f.records@.len() > 0 {
        let r = f.records@[0];
        seq![
            kv("firmware_vendor"@, shown(r.vendor.status, string_text(r.vendor))),
            kv(
                "firmware_mode"@,
                shown_name(
                    r.mode.status,
                    match r.mode.value {
                        Some(v) => Some(firmware_mode_text(v)),
                        None => None,
                    },
                ),
            ),
            kv("secure_boot_present"@, shown(r.secure_boot_present.status, bool_field_text(r.secure_boot_present))),
            kv("secure_boot_enabled"@, shown(r.secure_boot_enabled.status, bool_field_text(r.secure_boot_enabled))),
            kv("tpm_present"@, shown(r.tpm_present.status, bool_field_text(r.tpm_present))),
            kv(
                "tpm_specification"@,
                shown(r.tpm_specification_version.status, string_text(r.tpm_specification_version)),
            ),
        ]
    } else {
        Seq::empty()
    }
}

/// The lines of the processor numbered `i`.
pub open spec fn processor_lines(r: ProcessorProfile, i: nat) -> Seq<Seq<char>> {
    let p = "processor_"@ + dec(i);
    seq![
        kv(p + "_manufacturer"@, shown(r.manufacturer.status, string_text(r.manufacturer))),
        kv(p + "_model"@, shown(r.model.status, string_text(r.model))),
        kv(p + "_architecture"@, shown(r.architecture.status, string_text(r.architecture))),
        kv(p + "_physical_cores"@, shown(r.physical_core_count.status, u32_text(r.physical_core_count))),
        kv(
            p + "_logical_processors"@,
            shown(r.logical_processor_count.status, u32_text(r.logical_processor_count)),
        ),
    ]
}

pub open spec fn all_processor_lines(rs: Seq<ProcessorProfile>) -> Seq<Seq<char>>
    decreases rs.len(),
{
    if rs.len() == 0 {
        Seq::empty()
    } else {
        all_processor_lines(rs.drop_last()) + processor_lines(rs.last(), (rs.len() - 1) as nat)
    }
}

/// The lines of the memory module numbered `i`.
pub open spec fn module_lines(r: MemoryModule, i: nat) -> Seq<Seq<char>> {
    let p = "memory_module_"@ + dec(i);
    seq![
        kv(p + "_capacity_bytes"@, shown(r.capacity_bytes.status, u64_text(r.capacity_bytes))),
        kv(p + "_speed_mhz"@, shown(r.speed_mhz.status, u32_text(r.speed_mhz))),
        kv(p + "_configured_speed_mhz"@, shown(r.configured_speed_mhz.status, u32_text(r.configured_speed_mhz))),
        kv(p + "_type"@, shown(r.memory_type.status, string_text(r.memory_type))),
        kv(p + "_form_factor"@, shown(r.form_factor.status, string_text(r.form_factor))),
        kv(p + "_manufacturer"@, shown(r.manufacturer.status, string_text(r.manufacturer))),
    ]
}

pub open spec fn all_module_lines(rs: Seq<MemoryModule>) -> Seq<Seq<char>>
    decreases rs.len(),
{
    if rs.len() == 0 {
        Seq::empty()
    } else {
        all_module_lines(rs.drop_last()) + module_lines(rs.last(), (rs.len() - 1) as nat)
    }
}

pub open spec fn memory_lines(inv: HardwareInventoryV1) -> Seq<Seq<char>> {
    let s = inv.memory.summary;
    let m = inv.memory.modules;
    seq![kv("memory_summary_status"@, s.status.wire()), kv("memory_summary_record_count"@, dec(s.records@.len()))]
        + (if s.records@.len() > 0 {
        let r = s.records@[0];
        seq![
            kv("installed_physical_bytes"@, shown(r.installed_physical_bytes.status, u64_text(r.installed_physical_bytes))),
            kv("visible_physical_bytes"@, shown(r.visible_physical_bytes.status, u64_text(r.visible_physical_bytes))),
            kv("physical_slot_count"@, shown(r.physical_slot_count.status, u32_text(r.physical_slot_count))),
            kv("populated_slot_count"@, shown(r.populated_slot_count.status, u32_text(r.populated_slot_count))),
            kv(
                "memory_error_correction"@,
                shown(r.error_correction_capability.status, string_text(r.error_correction_capability)),
            ),
        ]
    } else {
        Seq::empty()
    }) + seq![kv("memory_modules_status"@, m.status.wire()), kv("memory_module_count"@, dec(m.records@.len()))]
        + all_module_lines(m.records@)
}

pub open spec fn verdict_lines(inv: HardwareInventoryV1) -> Seq<Seq<char>> {
    seq![
        kv("requested_sections_consistent"@, bool_text(sections_consistent(inv))),
        kv("requested_fields_consistent"@, bool_text(fields_consistent(inv))),
        kv("requested_coverage_complete"@, bool_text(coverage_complete(inv))),
        kv("deferred_sections_untouched"@, bool_text(deferred_untouched(inv))),
        kv(
            "result"@,
            if passes(inv) {
                "pass"@
            } else {
                "fail"@
            },
        ),
    ]
}

/// Every line of the report, in order.
pub open spec fn report_lines(inv: HardwareInventoryV1) -> Seq<Seq<char>> {
    preamble() + device_lines(inv) + firmware_lines(inv) + seq![
        kv("processor_section_status"@, inv.processors.status.wire()),
        kv("processor_record_count"@, dec(inv.processors.records@.len())),
    ] + all_processor_lines(inv.processors.records@) + memory_lines(inv) + verdict_lines(inv)
}

fn push_preamble(lines: &mut Vec<String>)
    ensures
        string_views(final(lines)@) == string_views(old(lines)@) + preamble(),
{
    let ghost before = string_views(lines@);
    push_kv(lines, "validator", &chars_of(VALIDATOR_NAME));
    push_kv(lines, "validator_version", &chars_of(VALIDATOR_VERSION));
    push_line(lines, "mode=passive_read_only");
    push_line(lines, "destructive_operations=false");
    push_line(lines, "identifiers=redacted");
    assert(string_views(lines@) =~= before + preamble());
}

fn push_device(lines: &mut Vec<String>, inv: &HardwareInventoryV1)
    ensures
        string_views(final(lines)@) == string_views(old(lines)@) + device_lines(*inv),
{
    let ghost before = string_views(lines@);
    let d = &inv.device_and_chassis;
    push_kv(lines, "schema_version", &chars_of(inv.schema_version));
    push_kv(lines, "collected_at_unix", &number(inv.collected_at_unix));
    push_kv(lines, "device_section_status", &chars_of(d.status.as_str()));
    push_kv(lines, "device_record_count", &number(d.records.len() as u64));
    if d.records.len() > 0 {
        let r = &d.records[0];
        push_kv(lines, "system_manufacturer", &show_string(&r.system_manufacturer));
        push_kv(lines, "system_model", &show_string(&r.system_model));
        let c = match r.classification.value {
            Some(v) => Some(classification_name(v)),
            None => None,
        };
        push_kv(lines, "device_classification", &show_name(r.classification.status, c));
        let f = match r.form_factor.value {
            Some(v) => Some(form_factor_name(v)),
            None => None,
        };
        push_kv(lines, "form_factor", &show_name(r.form_factor.status, f));
    }
    assert(string_views(lines@) =~= before + device_lines(*inv));
}

fn push_firmware(lines: &mut Vec<String>, inv: &HardwareInventoryV1)
    ensures
        string_views(final(lines)@) == string_views(old(lines)@) + firmware_lines(*inv),
{
    let ghost before = string_views(lines@);
    let f = &inv.firmware;
    push_kv(lines, "firmware_section_status", &chars_of(f.status.as_str()));
    push_kv(lines, "firmware_record_count", &number(f.records.len() as u64));
    if f.records.len() > 0 {
        let r = &f.records[0];
        push_kv(lines, "firmware_vendor", &show_string(&r.vendor));
        let m = match r.mode.value {
            Some(v) => Some(firmware_mode_name(v)),
            None => None,
        };
        push_kv(lines, "firmware_mode", &show_name(r.mode.status, m));
        push_kv(lines, "secure_boot_present", &show_bool(&r.secure_boot_present));
        push_kv(lines, "secure_boot_enabled", &show_bool(&r.secure_boot_enabled));
        push_kv(lines, "tpm_present", &show_bool(&r.tpm_present));
        push_kv(lines, "tpm_specification", &show_string(&r.tpm_specification_version));
    }
    assert(string_views(lines@) =~= before + firmware_lines(*inv));
}

fn indexed_key(prefix: &str, i: u64, suffix: &str) -> (out: String)
    ensures
        out@ == prefix@ + dec(i as nat) + suffix@,
{
    let mut k = chars_of(prefix);
    push_dec(&mut k, i);
    append_str(&mut k, suffix);
    string_of(&k)
}

fn push_processors(lines: &mut Vec<String>, rs: &Vec<ProcessorProfile>)
    ensures
        string_views(final(lines)@) == string_views(old(lines)@) + all_processor_lines(rs@),
{
    let ghost start = string_views(lines@);
    let mut i: usize = 0;
    while i < rs.len()
        invariant
            i <= rs@.len(),
            string_views(lines@) == start + all_processor_lines(rs@.take(i as int)),
        decreases rs.len() - i,
    {
        let ghost before = string_views(lines@);
        let r = &rs[i];
        let n = i as u64;
        push_kv(lines, indexed_key("processor_", n, "_manufacturer").as_str(), &show_string(&r.manufacturer));
        push_kv(lines, indexed_key("processor_", n, "_model").as_str(), &show_string(&r.model));
        push_kv(lines, indexed_key("processor_", n, "_architecture").as_str(), &show_string(&r.architecture));
        push_kv(lines, indexed_key("processor_", n, "_physical_cores").as_str(), &show_u32(&r.physical_core_count));
        push_kv(
            lines,
            indexed_key("processor_", n, "_logical_processors").as_str(),
            &show_u32(&r.logical_processor_count),
        );
        assert(rs@.take(i + 1).drop_last() =~= rs@.take(i as int));
        assert(string_views(lines@) =~= before + processor_lines(rs@[i as int], i as nat));
        i += 1;
    }
    assert(rs@.take(rs@.len() as int) =~= rs@);
}

fn push_modules(lines: &mut Vec<String>, rs: &Vec<MemoryModule>)
    ensures
        string_views(final(lines)@) == string_views(old(lines)@) + all_module_lines(rs@),
{
    let ghost start = string_views(lines@);
    let mut i: usize = 0;
    while i < rs.len()
        invariant
            i <= rs@.len(),
            string_views(lines@) == start + all_module_lines(rs@.take(i as int)),
        decreases rs.len() - i,
    {
        let ghost before = string_views(lines@);
        let r = &rs[i];
        let n = i as u64;
        push_kv(lines, indexed_key("memory_module_", n, "_capacity_bytes").as_str(), &show_u64(&r.capacity_bytes));
        push_kv(lines, indexed_key("memory_module_", n, "_speed_mhz").as_str(), &show_u32(&r.speed_mhz));
        push_kv(
            lines,
            indexed_key("memory_module_", n, "_configured_speed_mhz").as_str(),
            &show_u32(&r.configured_speed_mhz),
        );
        push_kv(lines, indexed_key("memory_module_", n, "_type").as_str(), &show_string(&r.memory_type));
        push_kv(lines, indexed_key("memory_module_", n, "_form_factor").as_str(), &show_string(&r.form_factor));
        push_kv(lines, indexed_key("memory_module_", n, "_manufacturer").as_str(), &show_string(&r.manufacturer));
        assert(rs@.take(i + 1).drop_last() =~= rs@.take(i as int));
        assert(string_views(lines@) =~= before + module_lines(rs@[i as int], i as nat));
        i += 1;
    }
    assert(rs@.take(rs@.len() as int) =~= rs@);
}

fn push_memory(lines: &mut Vec<String>, inv: &HardwareInventoryV1)
    ensures
        string_views(final(lines)@) == string_views(old(lines)@) + memory_lines(*inv),
{
    let ghost before = string_views(lines@);
    let s = &inv.memory.summary;
    push_kv(lines, "memory_summary_status", &chars_of(s.status.as_str()));
    push_kv(lines, "memory_summary_record_count", &number(s.records.len() as u64));
    if s.records.len() > 0 {
        let r = &s.records[0];
        push_kv(lines, "installed_physical_bytes", &show_u64(&r.installed_physical_bytes));
        push_kv(lines, "visible_physical_bytes", &show_u64(&r.visible_physical_bytes));
        push_kv(lines, "physical_slot_count", &show_u32(&r.physical_slot_count));
        push_kv(lines, "populated_slot_count", &show_u32(&r.populated_slot_count));
        push_kv(lines, "memory_error_correction", &show_string(&r.error_correction_capability));
    }
    let m = &inv.memory.modules;
    push_kv(lines, "memory_modules_status", &chars_of(m.status.as_str()));
    push_kv(lines, "memory_module_count", &number(m.records.len() as u64));
    let ghost mid = string_views(lines@);
    push_modules(lines, &m.records);
    assert(string_views(lines@) =~= before + memory_lines(*inv));
}

fn bool_chars(b: bool) -> (out: Vec<char>)
    ensures
        out@ == bool_text(b),
{
    let mut out: Vec<char> = Vec::new();
    push_bool(&mut out, b);
    assert(out@ =~= bool_text(b));
    out
}

/// The verdict on an inventory and the lines that explain it.
pub fn build_report(inventory: &HardwareInventoryV1) -> (r: ValidationReport)
    ensures
        r.passed == passes(*inventory),
        string_views(r.lines@) == report_lines(*inventory),
{
    let field_consistency = requested_fields_are_consistent(inventory);
    let section_consistency = requested_sections_are_consistent(inventory);
    let requested_coverage = requested_sections_have_records(inventory);
    let deferred = deferred_sections_are_untouched(inventory);
    let schema_valid = crate::text::seq_eq(&chars_of(inventory.schema_version), &chars_of(SCHEMA_VERSION));
    let timestamp_valid = inventory.collected_at_unix > 0;
    let passed = schema_valid && timestamp_valid && field_consistency && section_consistency
        && requested_coverage && deferred;
    let mut lines: Vec<String> = Vec::new();
    push_preamble(&mut lines);
    push_device(&mut lines, inventory);
    push_firmware(&mut lines, inventory);
    push_kv(&mut lines, "processor_section_status", &chars_of(inventory.processors.status.as_str()));
    push_kv(&mut lines, "processor_record_count", &number(inventory.processors.records.len() as u64));
    push_processors(&mut lines, &inventory.processors.records);
    push_memory(&mut lines, inventory);
    let ghost before_verdict = string_views(lines@);
    push_kv(&mut lines, "requested_sections_consistent", &bool_chars(section_consistency));
    push_kv(&mut lines, "requested_fields_consistent", &bool_chars(field_consistency));
    push_kv(&mut lines, "requested_coverage_complete", &bool_chars(requested_coverage));
    push_kv(&mut lines, "deferred_sections_untouched", &bool_chars(deferred));
    if passed {
        push_kv(&mut lines, "result", &chars_of("pass"));
    } else {
        push_kv(&mut lines, "result", &chars_of("fail"));
    }
    assert(string_views(lines@) =~= before_verdict + verdict_lines(*inventory));
    assert(string_views(lines@) =~= report_lines(*inventory));
    ValidationReport { lines, passed }
}

/// The report's lines, one per line of text.
pub fn render_text(inventory: &HardwareInventoryV1) -> (s: String)
    ensures
        s@ == crate::text::join(report_lines(*inventory), "\n"@),
{
    let report = build_report(inventory);
    crate::text::join_strings(&report.lines, "\n")
}

/// What the validator prints off Windows.
pub open spec fn not_windows_lines() -> Seq<Seq<char>> {
    preamble().push("result=not_windows"@)
}

pub fn not_windows_text() -> (s: String)
    ensures
        s@ == crate::text::join(not_windows_lines(), "\n"@),
{
    let mut lines: Vec<String> = Vec::new();
    push_preamble(&mut lines);
    push_line(&mut lines, "result=not_windows");
    assert(string_views(lines@) =~= not_windows_lines());
    crate::text::join_strings(&lines, "\n")
}

/// The wire name of a collector error kind.
pub open spec fn kind_wire(k: crate::CollectorErrorKind) -> Seq<char> {
    match k {
        crate::CollectorErrorKind::Unsupported => "unsupported"@,
        crate::CollectorErrorKind::PermissionDenied => "permission_denied"@,
        crate::CollectorErrorKind::CommandFailed => "command_failed"@,
        crate::CollectorErrorKind::ParseFailed => "parse_failed"@,
        crate::CollectorErrorKind::Cancelled => "cancelled"@,
        crate::CollectorErrorKind::TimedOut => "timed_out"@,
        crate::CollectorErrorKind::OutputLimitExceeded => "output_limit_exceeded"@,
        crate::CollectorErrorKind::Internal => "internal"@,
    }
}

pub fn error_kind_name(value: crate::CollectorErrorKind) -> (s: &'static str)
    ensures
        s@ == kind_wire(value),
{
    match value {
        crate::CollectorErrorKind::Unsupported => "unsupported",
        crate::CollectorErrorKind::PermissionDenied => "permission_denied",
        crate::CollectorErrorKind::CommandFailed => "command_failed",
        crate::CollectorErrorKind::ParseFailed => "parse_failed",
        crate::CollectorErrorKind::Cancelled => "cancelled",
        crate::CollectorErrorKind::TimedOut => "timed_out",
        crate::CollectorErrorKind::OutputLimitExceeded => "output_limit_exceeded",
        crate::CollectorErrorKind::Internal => "internal",
    }
}

/// What the validator prints when the inventory could not be collected:
/// the preamble, the error's kind and its message on one line, and a fail.
pub open spec fn collector_error_lines(e: crate::CollectorError) -> Seq<Seq<char>> {
    preamble() + seq![
        kv("collector_error_kind"@, kind_wire(e.kind)),
        kv("collector_error_message"@, flatten(e.safe_message@)),
        "result=fail"@,
    ]
}

pub fn collector_error_report(error: &crate::CollectorError) -> (lines: Vec<String>)
    ensures
        string_views(lines@) == collector_error_lines(*error),
{
    let mut lines: Vec<String> = Vec::new();
    push_preamble(&mut lines);
    push_kv(&mut lines, "collector_error_kind", &chars_of(error_kind_name(error.kind)));
    let message = flatten_text(error.safe_message.as_str());
    push_kv(&mut lines, "collector_error_message", &chars_of(message.as_str()));
    push_line(&mut lines, "result=fail");
    assert(string_views(lines@) =~= collector_error_lines(*error));
    lines
}

} // verus!
