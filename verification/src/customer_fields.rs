//! The hardware rows shown to the customer: identity, firmware, processor,
//! memory, battery, sensors and ports, each only when firmware reported it.

use vstd::prelude::*;
use crate::hardware_inventory_v1::{
    BatteryProfile, DeviceClassification, DeviceIdentifier, FirmwareMode, FormFactor, HardwareInventoryV1,
    InventoryField, MemoryModule, PortCategory, PortRecord, SensorCategory, SensorPresence,
};
use crate::hardware_validation::{
    bool_field_text, classification_name, classification_text, firmware_mode_name, firmware_mode_text, flatten,
    flatten_text, form_factor_name, form_factor_text, string_text, u32_text, u64_text,
};
use crate::numtext::{dec, push_dec};
use crate::text::{append_all, append_str, chars_of, eq_str, join, owned, string_of, string_views, views};

verus! {

pub type Rows = Seq<(Seq<char>, Seq<char>)>;

pub open spec fn rows_view(rows: Seq<(String, String)>) -> Rows {
    rows.map_values(|r: (String, String)| (r.0@, r.1@))
}

/// A value worth printing: not empty and not `unknown`.
pub open spec fn shown_value(v: Seq<char>) -> bool {
    v.len() > 0 && v != "unknown"@
}

/// The row for `label`, when its value is worth printing.
pub open spec fn row(label: Seq<char>, value: Option<Seq<char>>) -> Rows {
    match value {
        Some(v) => if shown_value(v) {
            seq![(label, v)]
        } else {
            Seq::empty()
        },
        None => Seq::empty(),
    }
}

/// A reported text, flattened; none when nothing is left.
pub open spec fn plain(text: Option<Seq<char>>) -> Option<Seq<char>> {
    match text {
        Some(t) => if flatten(t).len() > 0 {
            Some(flatten(t))
        } else {
            None
        },
        None => None,
    }
}

pub open spec fn underscores_to_spaces(s: Seq<char>) -> Seq<char> {
    s.map_values(|c: char| if c == '_' { ' ' } else { c })
}

pub open spec fn mapped(name: Option<Seq<char>>) -> Option<Seq<char>> {
    match name {
        Some(n) => Some(underscores_to_spaces(n)),
        None => None,
    }
}

pub open spec fn yes_no(f: InventoryField<bool>) -> Option<Seq<char>> {
    match f.value {
        Some(v) => Some(
            if v {
                "Yes"@
            } else {
                "No"@
            },
        ),
        None => None,
    }
}

pub open spec fn ident(f: InventoryField<DeviceIdentifier>) -> Option<Seq<char>> {
    match f.value {
        Some(id) => if flatten(id.text()).len() > 0 {
            Some(flatten(id.text()))
        } else {
            None
        },
        None => None,
    }
}

/// An audit identifier: always printed when known; a required one is
/// printed as not reported when firmware withheld it.
pub open spec fn audit(label: Seq<char>, value: Option<Seq<char>>, required: bool) -> Rows {
    match value {
        Some(v) => seq![(label, v)],
        None => if required {
            seq![(label, "Not reported by firmware"@)]
        } else {
            Seq::empty()
        },
    }
}

/// `n / d` rounded to the nearest whole number, ties to even.
pub open spec fn round_even(n: nat, d: nat) -> nat {
    let q = n / d;
    let r = n % d;
    if 2 * r > d || (2 * r == d && q % 2 == 1) {
        q + 1
    } else {
        q
    }
}

/// A byte count as a customer reads it: GB to one decimal, whole MB, or bytes.
pub open spec fn bytes_text(b: u64) -> Seq<char> {
    if b >= 1073741824 {
        let t = round_even(b as nat * 10, 1073741824);
        dec(t / 10) + "."@ + dec(t % 10) + " GB"@
    } else if b >= 1048576 {
        dec(round_even(b as nat, 1048576)) + " MB"@
    } else {
        dec(b as nat) + " bytes"@
    }
}

pub open spec fn slots(populated: InventoryField<u32>, physical: InventoryField<u32>) -> Option<Seq<char>> {
    match (populated.value, physical.value) {
        (Some(u), Some(t)) => Some(dec(u as nat) + " of "@ + dec(t as nat)),
        (Some(u), None) => Some(dec(u as nat)),
        _ => None,
    }
}

pub open spec fn class_name(f: InventoryField<DeviceClassification>) -> Option<Seq<char>> {
    match f.value {
        Some(v) => Some(classification_text(v)),
        None => None,
    }
}

pub open spec fn form_name(f: InventoryField<FormFactor>) -> Option<Seq<char>> {
    match f.value {
        Some(v) => Some(form_factor_text(v)),
        None => None,
    }
}

pub open spec fn mode_name(f: InventoryField<FirmwareMode>) -> Option<Seq<char>> {
    match f.value {
        Some(v) => Some(firmware_mode_text(v)),
        None => None,
    }
}

pub open spec fn identity_rows(r: crate::hardware_inventory_v1::DeviceAndChassisIdentity) -> Rows {
    row("Manufacturer"@, plain(string_text(r.system_manufacturer))) + row("Model"@, plain(string_text(r.system_model)))
        + row("Device type"@, mapped(class_name(r.classification))) + row(
        "Form factor"@,
        mapped(form_name(r.form_factor)),
    )
}

pub open spec fn serial_rows(r: crate::hardware_inventory_v1::DeviceAndChassisIdentity) -> Rows {
    audit("BIOS / OEM serial"@, ident(r.serial_number), true) + audit(
        "Chassis serial"@,
        ident(r.chassis_serial_number),
        true,
    ) + audit("Motherboard serial"@, ident(r.baseboard_serial_number), true) + audit(
        "SMBIOS UUID"@,
        ident(r.system_uuid),
        false,
    ) + audit("Asset tag"@, ident(r.asset_tag), false)
}

pub open spec fn device_rows(inv: HardwareInventoryV1) -> Rows {
    if inv.device_and_chassis.records@.len() > 0 {
        let r = inv.device_and_chassis.records@[0];
        identity_rows(r) + serial_rows(r)
    } else {
        Seq::empty()
    }
}

pub open spec fn boot_rows(f: crate::hardware_inventory_v1::FirmwareProfile) -> Rows {
    row("Firmware vendor"@, plain(string_text(f.vendor))) + row("Firmware mode"@, mapped(mode_name(f.mode))) + row(
        "Secure Boot present"@,
        yes_no(f.secure_boot_present),
    )
}

pub open spec fn trust_rows(f: crate::hardware_inventory_v1::FirmwareProfile) -> Rows {
    row("Secure Boot enabled"@, yes_no(f.secure_boot_enabled)) + row("TPM present"@, yes_no(f.tpm_present)) + row(
        "TPM specification"@,
        plain(string_text(f.tpm_specification_version)),
    )
}

pub open spec fn firmware_rows(inv: HardwareInventoryV1) -> Rows {
    if inv.firmware.records@.len() > 0 {
        let f = inv.firmware.records@[0];
        boot_rows(f) + trust_rows(f)
    } else {
        Seq::empty()
    }
}

pub open spec fn processor_rows(inv: HardwareInventoryV1) -> Rows {
    if inv.processors.records@.len() > 0 {
        let p = inv.processors.records@[0];
        row("Processor"@, plain(string_text(p.model))) + row("Processor manufacturer"@, plain(string_text(p.manufacturer)))
            + row("Physical cores"@, plain(u32_text(p.physical_core_count))) + row(
            "Logical processors"@,
            plain(u32_text(p.logical_processor_count)),
        )
    } else {
        Seq::empty()
    }
}

pub open spec fn summary_rows(inv: HardwareInventoryV1) -> Rows {
    if inv.memory.summary.records@.len() > 0 {
        let s = inv.memory.summary.records@[0];
        row(
            "Installed memory"@,
            match s.installed_physical_bytes.value {
                Some(b) => Some(bytes_text(b)),
                None => None,
            },
        ) + row(
            "Visible memory"@,
            match s.visible_physical_bytes.value {
                Some(b) => Some(bytes_text(b)),
                None => None,
            },
        ) + row("Memory slots used"@, slots(s.populated_slot_count, s.physical_slot_count))
    } else {
        Seq::empty()
    }
}

/// The serial row of one memory module, labelled by its slot.
pub open spec fn module_serial_row(m: MemoryModule) -> Rows {
    match ident(m.serial_number) {
        Some(serial) => row(
            "Memory serial ("@ + (match plain(string_text(m.locator)) {
                Some(l) => l,
                None => "module"@,
            }) + ")"@,
            Some(serial),
        ),
        None => Seq::empty(),
    }
}

pub open spec fn module_serial_rows(ms: Seq<MemoryModule>) -> Rows
    decreases ms.len(),
{
    if ms.len() == 0 {
        Seq::empty()
    } else {
        module_serial_rows(ms.drop_last()) + module_serial_row(ms.last())
    }
}

/// The battery health row is printed only for a sane ratio between 1% and
/// 150%, rounded half away from zero to a whole percent.
pub open spec fn battery_rows(inv: HardwareInventoryV1) -> Rows {
    if inv.batteries.records@.len() > 0 {
        let b = inv.batteries.records@[0];
        row("Battery present"@, yes_no(b.present)) + match b.health_ratio.value {
            Some(r) => if r.denominator > 0 && 100 * r.numerator >= r.denominator && 2 * r.numerator <= 3
                * r.denominator {
                row(
                    "Battery health %"@,
                    Some(
                        dec(((200 * r.numerator + r.denominator) / (2 * r.denominator)) as nat)
                            + "% full-charge vs design"@,
                    ),
                )
            } else {
                Seq::empty()
            },
            None => Seq::empty(),
        }
    } else {
        Seq::empty()
    }
}

pub open spec fn sensor_rows(records: Seq<SensorPresence>, category: SensorCategory, label: Seq<char>) -> Rows {
    let matching = records.filter(|r: SensorPresence| r.category == category);
    let present = matching.filter(|r: SensorPresence| r.present.value == Some(true));
    let names = present.filter(|r: SensorPresence| plain(string_text(r.model)) is Some).map_values(
        |r: SensorPresence| plain(string_text(r.model)).unwrap(),
    );
    if matching.len() == 0 {
        Seq::empty()
    } else if present.len() == 0 {
        row(label, Some("None enumerated by Windows"@))
    } else if names.len() == 0 {
        row(label, Some(dec(present.len())))
    } else {
        row(label, Some(dec(present.len()) + " — "@ + join(names, ", "@)))
    }
}

/// The connectors firmware reports in the categories `wanted` accepts.
pub open spec fn connector_total(records: Seq<PortRecord>, wanted: spec_fn(PortCategory) -> bool) -> nat
    decreases records.len(),
{
    if records.len() == 0 {
        0
    } else {
        connector_total(records.drop_last(), wanted) + if wanted(records.last().category) {
            match records.last().count.value {
                Some(c) => c as nat,
                None => 0,
            }
        } else {
            0
        }
    }
}

/// Any of three categories.
pub open spec fn among(a: PortCategory, b: PortCategory, c: PortCategory) -> spec_fn(PortCategory) -> bool {
    |x: PortCategory| x == a || x == b || x == c
}

pub open spec fn connectors_row(label: Seq<char>, total: nat) -> Rows {
    if total > 0 {
        row(label, Some(dec(total) + " firmware connectors"@))
    } else {
        Seq::empty()
    }
}

pub open spec fn port_rows(records: Seq<PortRecord>) -> Rows {
    connectors_row("USB ports"@, connector_total(records, usb_ports())) + connectors_row(
        "HDMI ports"@,
        connector_total(records, among(PortCategory::Hdmi, PortCategory::Hdmi, PortCategory::Hdmi)),
    ) + connectors_row(
        "DisplayPort"@,
        connector_total(records, among(PortCategory::DisplayPort, PortCategory::DisplayPort, PortCategory::DisplayPort)),
    ) + connectors_row("Ethernet / audio jacks"@, connector_total(records, jacks()))
}

pub open spec fn usb_ports() -> spec_fn(PortCategory) -> bool {
    among(PortCategory::UsbA, PortCategory::UsbC, PortCategory::Usb4OrThunderbolt)
}

pub open spec fn jacks() -> spec_fn(PortCategory) -> bool {
    among(PortCategory::Ethernet, PortCategory::Audio, PortCategory::Audio)
}

/// The port sums fit the counter the firmware reports them in.
pub open spec fn port_sums_fit(records: Seq<PortRecord>) -> bool {
    &&& connector_total(records, usb_ports()) <= u32::MAX
    &&& connector_total(records, among(PortCategory::Hdmi, PortCategory::Hdmi, PortCategory::Hdmi)) <= u32::MAX
    &&& connector_total(records, among(PortCategory::DisplayPort, PortCategory::DisplayPort, PortCategory::DisplayPort))
        <= u32::MAX
    &&& connector_total(records, jacks()) <= u32::MAX
}

/// Every customer row, in the order printed.
pub open spec fn customer_rows(inv: HardwareInventoryV1) -> Rows {
    device_rows(inv) + firmware_rows(inv) + processor_rows(inv) + summary_rows(inv) + module_serial_rows(
        inv.memory.modules.records@,
    ) + battery_rows(inv) + sensor_rows(inv.sensors.records@, SensorCategory::Camera, "Cameras"@) + sensor_rows(
        inv.sensors.records@,
        SensorCategory::Microphone,
        "Microphones"@,
    ) + port_rows(inv.ports.records@)
}

fn push_row(rows: &mut Vec<(String, String)>, label: &str, value: Option<Vec<char>>)
    ensures
        rows_view(final(rows)@) == rows_view(old(rows)@) + row(
            label@,
            match value {
                Some(v) => Some(v@),
                None => None,
            },
        ),
{
    let ghost before = rows_view(rows@);
    match value {
        Some(v) => {
            if v.len() > 0 && !eq_str(&v, "unknown") {
                let ghost vv = v@;
                rows.push((owned(label), string_of(&v)));
                assert(rows_view(rows@) =~= before.push((label@, vv)));
            } else {
                assert(rows_view(rows@) =~= before);
            }
        },
        None => {
            assert(rows_view(rows@) =~= before);
        },
    }
}

fn push_audit(rows: &mut Vec<(String, String)>, label: &str, value: Option<Vec<char>>, required: bool)
    ensures
        rows_view(final(rows)@) == rows_view(old(rows)@) + audit(
            label@,
            match value {
                Some(v) => Some(v@),
                None => None,
            },
            required,
        ),
{
    let ghost before = rows_view(rows@);
    match value {
        Some(v) => {
            let ghost vv = v@;
            rows.push((owned(label), string_of(&v)));
            assert(rows_view(rows@) =~= before.push((label@, vv)));
        },
        None => {
            if required {
                rows.push((owned(label), owned("Not reported by firmware")));
                assert(rows_view(rows@) =~= before.push((label@, "Not reported by firmware"@)));
            } else {
                assert(rows_view(rows@) =~= before);
            }
        },
    }
}

fn flat(v: &Vec<char>) -> (out: Vec<char>)
    ensures
        out@ == flatten(v@),
{
    let f = flatten_text(string_of(v).as_str());
    chars_of(f.as_str())
}

fn plain_of(text: Option<Vec<char>>) -> (out: Option<Vec<char>>)
    ensures
        match out {
            Some(o) => plain(
                match text {
                    Some(t) => Some(t@),
                    None => None,
                },
            ) == Some(o@),
            None => plain(
                match text {
                    Some(t) => Some(t@),
                    None => None,
                },
            ) is None,
        },
{
    match text {
        Some(t) => {
            let f = flat(&t);
            if f.len() > 0 {
                Some(f)
            } else {
                None
            }
        },
        None => None,
    }
}

fn string_value(f: &InventoryField<String>) -> (out: Option<Vec<char>>)
    ensures
        match out {
            Some(o) => string_text(*f) == Some(o@),
            None => string_text(*f) is None,
        },
{
    match &f.value {
        Some(v) => Some(chars_of(v.as_str())),
        None => None,
    }
}

fn number_text(n: u64) -> (out: Vec<char>)
    ensures
        out@ == dec(n as nat),
{
    let mut out: Vec<char> = Vec::new();
    push_dec(&mut out, n);
    assert(out@ =~= dec(n as nat));
    out
}

fn u32_value(f: &InventoryField<u32>) -> (out: Option<Vec<char>>)
    ensures
        match out {
            Some(o) => u32_text(*f) == Some(o@),
            None => u32_text(*f) is None,
        },
{
    match f.value {
        Some(v) => Some(number_text(v as u64)),
        None => None,
    }
}

fn plain_string(f: &InventoryField<String>) -> (out: Option<Vec<char>>)
    ensures
        match out {
            Some(o) => plain(string_text(*f)) == Some(o@),
            None => plain(string_text(*f)) is None,
        },
{
    plain_of(string_value(f))
}

fn plain_u32(f: &InventoryField<u32>) -> (out: Option<Vec<char>>)
    ensures
        match out {
            Some(o) => plain(u32_text(*f)) == Some(o@),
            None => plain(u32_text(*f)) is None,
        },
{
    plain_of(u32_value(f))
}

fn mapped_of(name: Option<&'static str>) -> (out: Option<Vec<char>>)
    ensures
        match out {
            Some(o) => mapped(
                match name {
                    Some(n) => Some(n@),
                    None => None,
                },
            ) == Some(o@),
            None => name is None,
        },
{
    match name {
        Some(n) => {
            let c = chars_of(n);
            let mut out: Vec<char> = Vec::new();
            let mut i: usize = 0;
            while i < c.len()
                invariant
                    i <= c@.len(),
                    out@ == underscores_to_spaces(c@.take(i as int)),
                decreases c.len() - i,
            {
                out.push(
                    if c[i] == '_' {
                        ' '
                    } else {
                        c[i]
                    },
                );
                i += 1;
                assert(out@ =~= underscores_to_spaces(c@.take(i as int)));
            }
            assert(c@.take(c@.len() as int) =~= c@);
            Some(out)
        },
        None => None,
    }
}

fn yes_no_of(f: &InventoryField<bool>) -> (out: Option<Vec<char>>)
    ensures
        match out {
            Some(o) => yes_no(*f) == Some(o@),
            None => yes_no(*f) is None,
        },
{
    match f.value {
        Some(true) => Some(chars_of("Yes")),
        Some(false) => Some(chars_of("No")),
        None => None,
    }
}

fn ident_of(f: &InventoryField<DeviceIdentifier>) -> (out: Option<Vec<char>>)
    ensures
        match out {
            Some(o) => ident(*f) == Some(o@),
            None => ident(*f) is None,
        },
{
    match &f.value {
        Some(id) => {
            let t = flat(&chars_of(id.expose_for_authorized_use()));
            if t.len() > 0 {
                Some(t)
            } else {
                None
            }
        },
        None => None,
    }
}

fn round_even_exec(n: u128, d: u128) -> (q: u128)
    requires
        d > 0,
        n < 0x1_0000_0000_0000_0000_0000,
        d <= 0x4000_0000,
    ensures
        q == round_even(n as nat, d as nat),
{
    let q = n / d;
    let r = n % d;
    if 2 * r > d || (2 * r == d && q % 2 == 1) {
        q + 1
    } else {
        q
    }
}

/// A byte count as printed for the customer.
pub fn format_bytes(bytes: u64) -> (out: String)
    ensures
        out@ == bytes_text(bytes),
{
    let mut out: Vec<char> = Vec::new();
    if bytes >= 1073741824 {
        let t = round_even_exec(bytes as u128 * 10, 1073741824);
        assert(t <= 0xffff_ffff_ffff_ffff_u128 * 10) by {
            assert(t <= (bytes as u128 * 10) / 1073741824 + 1);
        }
        let whole: u64 = (t / 10) as u64;
        let tenth: u64 = (t % 10) as u64;
        push_dec(&mut out, whole);
        append_str(&mut out, ".");
        push_dec(&mut out, tenth);
        append_str(&mut out, " GB");
    } else if bytes >= 1048576 {
        let q = round_even_exec(bytes as u128, 1048576);
        assert(q <= 0xffff_ffff_ffff_ffff_u128) by {
            assert(q <= bytes as u128 / 1048576 + 1);
        }
        push_dec(&mut out, q as u64);
        append_str(&mut out, " MB");
    } else {
        push_dec(&mut out, bytes);
        append_str(&mut out, " bytes");
    }
    string_of(&out)
}

fn push_identity_rows(rows: &mut Vec<(String, String)>, r: &crate::hardware_inventory_v1::DeviceAndChassisIdentity)
    ensures
        rows_view(final(rows)@) == rows_view(old(rows)@) + identity_rows(*r),
{
    let ghost before = rows_view(rows@);
        push_row(rows, "Manufacturer", plain_string(&r.system_manufacturer));
        push_row(rows, "Model", plain_string(&r.system_model));
        let c = match r.classification.value {
            Some(v) => Some(classification_name(v)),
            None => None,
        };
        push_row(rows, "Device type", mapped_of(c));
        let f = match r.form_factor.value {
            Some(v) => Some(form_factor_name(v)),
            None => None,
        };
        push_row(rows, "Form factor", mapped_of(f));
    assert(rows_view(rows@) =~= before + identity_rows(*r));
}

fn push_serial_rows(rows: &mut Vec<(String, String)>, r: &crate::hardware_inventory_v1::DeviceAndChassisIdentity)
    ensures
        rows_view(final(rows)@) == rows_view(old(rows)@) + serial_rows(*r),
{
    let ghost before = rows_view(rows@);
        push_audit(rows, "BIOS / OEM serial", ident_of(&r.serial_number), true);
        push_audit(rows, "Chassis serial", ident_of(&r.chassis_serial_number), true);
        push_audit(rows, "Motherboard serial", ident_of(&r.baseboard_serial_number), true);
        push_audit(rows, "SMBIOS UUID", ident_of(&r.system_uuid), false);
        push_audit(rows, "Asset tag", ident_of(&r.asset_tag), false);
    assert(rows_view(rows@) =~= before + serial_rows(*r));
}

fn push_device_rows(rows: &mut Vec<(String, String)>, inv: &HardwareInventoryV1)
    ensures
        rows_view(final(rows)@) == rows_view(old(rows)@) + device_rows(*inv),
{
    let ghost before = rows_view(rows@);
    if inv.device_and_chassis.records.len() > 0 {
        let r = &inv.device_and_chassis.records[0];
        push_identity_rows(rows, r);
        push_serial_rows(rows, r);
    }
    assert(rows_view(rows@) =~= before + device_rows(*inv));
}

fn push_boot_rows(rows: &mut Vec<(String, String)>, f: &crate::hardware_inventory_v1::FirmwareProfile)
    ensures
        rows_view(final(rows)@) == rows_view(old(rows)@) + boot_rows(*f),
{
    let ghost before = rows_view(rows@);
    push_row(rows, "Firmware vendor", plain_string(&f.vendor));
    let m = match f.mode.value {
        Some(v) => Some(firmware_mode_name(v)),
        None => None,
    };
    push_row(rows, "Firmware mode", mapped_of(m));
    push_row(rows, "Secure Boot present", yes_no_of(&f.secure_boot_present));
    assert(rows_view(rows@) =~= before + boot_rows(*f));
}

fn push_trust_rows(rows: &mut Vec<(String, String)>, f: &crate::hardware_inventory_v1::FirmwareProfile)
    ensures
        rows_view(final(rows)@) == rows_view(old(rows)@) + trust_rows(*f),
{
    let ghost before = rows_view(rows@);
    push_row(rows, "Secure Boot enabled", yes_no_of(&f.secure_boot_enabled));
    push_row(rows, "TPM present", yes_no_of(&f.tpm_present));
    push_row(rows, "TPM specification", plain_string(&f.tpm_specification_version));
    assert(rows_view(rows@) =~= before + trust_rows(*f));
}

fn push_firmware_rows(rows: &mut Vec<(String, String)>, inv: &HardwareInventoryV1)
    ensures
        rows_view(final(rows)@) == rows_view(old(rows)@) + firmware_rows(*inv),
{
    let ghost before = rows_view(rows@);
    if inv.firmware.records.len() > 0 {
        let f = &inv.firmware.records[0];
        push_boot_rows(rows, f);
        push_trust_rows(rows, f);
    }
    assert(rows_view(rows@) =~= before + firmware_rows(*inv));
}

fn push_processor_rows(rows: &mut Vec<(String, String)>, inv: &HardwareInventoryV1)
    ensures
        rows_view(final(rows)@) == rows_view(old(rows)@) + processor_rows(*inv),
{
    let ghost before = rows_view(rows@);
    if inv.processors.records.len() > 0 {
        let p = &inv.processors.records[0];
        push_row(rows, "Processor", plain_string(&p.model));
        push_row(rows, "Processor manufacturer", plain_string(&p.manufacturer));
        push_row(rows, "Physical cores", plain_u32(&p.physical_core_count));
        push_row(rows, "Logical processors", plain_u32(&p.logical_processor_count));
    }
    assert(rows_view(rows@) =~= before + processor_rows(*inv));
}

fn bytes_value(f: &InventoryField<u64>) -> (out: Option<Vec<char>>)
    ensures
        match out {
            Some(o) => (match f.value {
                Some(b) => Some(bytes_text(b)),
                None => None,
            }) == Some(o@),
            None => f.value is None,
        },
{
    match f.value {
        Some(b) => Some(chars_of(format_bytes(b).as_str())),
        None => None,
    }
}

fn push_summary_rows(rows: &mut Vec<(String, String)>, inv: &HardwareInventoryV1)
    ensures
        rows_view(final(rows)@) == rows_view(old(rows)@) + summary_rows(*inv),
{
    let ghost before = rows_view(rows@);
    if inv.memory.summary.records.len() > 0 {
        let s = &inv.memory.summary.records[0];
        push_row(rows, "Installed memory", bytes_value(&s.installed_physical_bytes));
        push_row(rows, "Visible memory", bytes_value(&s.visible_physical_bytes));
        let slot = match (s.populated_slot_count.value, s.physical_slot_count.value) {
            (Some(u), Some(t)) => {
                let mut v = number_text(u as u64);
                append_str(&mut v, " of ");
                append_all(&mut v, &number_text(t as u64));
                Some(v)
            },
            (Some(u), None) => Some(number_text(u as u64)),
            _ => None,
        };
        push_row(rows, "Memory slots used", slot);
    }
    assert(rows_view(rows@) =~= before + summary_rows(*inv));
}

fn push_module_serials(rows: &mut Vec<(String, String)>, ms: &Vec<MemoryModule>)
    ensures
        rows_view(final(rows)@) == rows_view(old(rows)@) + module_serial_rows(ms@),
{
    let ghost start = rows_view(rows@);
    let mut i: usize = 0;
    while i < ms.len()
        invariant
            i <= ms@.len(),
            rows_view(rows@) == start + module_serial_rows(ms@.take(i as int)),
        decreases ms.len() - i,
    {
        let ghost before = rows_view(rows@);
        let m = &ms[i];
        match ident_of(&m.serial_number) {
            Some(serial) => {
                let mut label = chars_of("Memory serial (");
                match plain_string(&m.locator) {
                    Some(l) => append_all(&mut label, &l),
                    None => append_str(&mut label, "module"),
                }
                append_str(&mut label, ")");
                push_row(rows, string_of(&label).as_str(), Some(serial));
            },
            None => {},
        }
        assert(ms@.take(i + 1).drop_last() =~= ms@.take(i as int));
        assert(rows_view(rows@) =~= before + module_serial_row(ms@[i as int]));
        i += 1;
    }
    assert(ms@.take(ms@.len() as int) =~= ms@);
}

fn push_battery_rows(rows: &mut Vec<(String, String)>, inv: &HardwareInventoryV1)
    ensures
        rows_view(final(rows)@) == rows_view(old(rows)@) + battery_rows(*inv),
{
    let ghost before = rows_view(rows@);
    if inv.batteries.records.len() > 0 {
        let b = &inv.batteries.records[0];
        push_row(rows, "Battery present", yes_no_of(&b.present));
        let ghost mid = rows_view(rows@);
        match b.health_ratio.value {
            Some(r) => {
                let n = r.numerator as u128;
                let d = r.denominator as u128;
                if d > 0 && 100 * n >= d && 2 * n <= 3 * d {
                    let pct = (200 * n + d) / (2 * d);
                    assert(pct <= 200) by (nonlinear_arith)
                        requires
                            pct == (200 * n + d) / (2 * d),
                            2 * n <= 3 * d,
                            d > 0,
                    ;
                    let mut v = number_text(pct as u64);
                    append_str(&mut v, "% full-charge vs design");
                    push_row(rows, "Battery health %", Some(v));
                }
            },
            None => {},
        }
    }
    assert(rows_view(rows@) =~= before + battery_rows(*inv));
}

fn push_sensor_rows(
    rows: &mut Vec<(String, String)>,
    records: &Vec<SensorPresence>,
    category: SensorCategory,
    label: &str,
)
    ensures
        rows_view(final(rows)@) == rows_view(old(rows)@) + sensor_rows(records@, category, label@),
{
    let ghost matching_of = |k: int| records@.take(k).filter(|r: SensorPresence| r.category == category);
    let ghost present_of = |k: int|
        records@.take(k).filter(|r: SensorPresence| r.category == category).filter(
            |r: SensorPresence| r.present.value == Some(true),
        );
    let mut matching: usize = 0;
    let mut present: usize = 0;
    let mut names: Vec<Vec<char>> = Vec::new();
    let mut i: usize = 0;
    while i < records.len()
        invariant
            i <= records@.len(),
            matching as nat == records@.take(i as int).filter(|r: SensorPresence| r.category == category).len(),
            present as nat == records@.take(i as int).filter(|r: SensorPresence| r.category == category).filter(
                |r: SensorPresence| r.present.value == Some(true),
            ).len(),
            views(names@) == records@.take(i as int).filter(|r: SensorPresence| r.category == category).filter(
                |r: SensorPresence| r.present.value == Some(true),
            ).filter(|r: SensorPresence| plain(string_text(r.model)) is Some).map_values(
                |r: SensorPresence| plain(string_text(r.model)).unwrap(),
            ),
            present <= i,
            matching <= i,
        decreases records.len() - i,
    {
        let ghost pre = records@.take(i as int);
        let ghost r = records@[i as int];
        assert(records@.take(i + 1) =~= pre.push(r));
        reveal_with_fuel(Seq::<_>::filter, 1);
        let ghost m0 = pre.filter(|r: SensorPresence| r.category == category);
        let ghost p0 = m0.filter(|r: SensorPresence| r.present.value == Some(true));
        let ghost n0 = p0.filter(|r: SensorPresence| plain(string_text(r.model)) is Some);
        let rec = &records[i];
        assert(pre.push(r).drop_last() =~= pre);
        assert(m0.push(r).drop_last() =~= m0);
        assert(p0.push(r).drop_last() =~= p0);
        assert(n0.push(r).drop_last() =~= n0);
        if rec.category == category {
            assert(pre.push(r).filter(|r: SensorPresence| r.category == category) =~= m0.push(r));
            matching += 1;
            if rec.present.value == Some(true) {
                assert(m0.push(r).filter(|r: SensorPresence| r.present.value == Some(true)) =~= p0.push(r));
                present += 1;
                match plain_string(&rec.model) {
                    Some(name) => {
                        assert(p0.push(r).filter(|r: SensorPresence| plain(string_text(r.model)) is Some) =~= n0.push(r));
                        let ghost nv = name@;
                        let ghost old_views = views(names@);
                        names.push(name);
                        assert(views(names@) =~= old_views.push(nv));
                        assert(n0.push(r).map_values(|r: SensorPresence| plain(string_text(r.model)).unwrap())
                            =~= n0.map_values(|r: SensorPresence| plain(string_text(r.model)).unwrap()).push(nv));
                    },
                    None => {
                        assert(p0.push(r).filter(|r: SensorPresence| plain(string_text(r.model)) is Some) =~= n0);
                    },
                }
            } else {
                assert(m0.push(r).filter(|r: SensorPresence| r.present.value == Some(true)) =~= p0);
            }
        } else {
            assert(pre.push(r).filter(|r: SensorPresence| r.category == category) =~= m0);
        }
        i += 1;
    }
    assert(records@.take(records@.len() as int) =~= records@);
    if matching == 0 {
        return;
    }
    if present == 0 {
        push_row(rows, label, Some(chars_of("None enumerated by Windows")));
        return;
    }
    let mut v = number_text(present as u64);
    if names.len() > 0 {
        append_str(&mut v, " — ");
        crate::report::push_joined(&mut v, &names, ", ");
    }
    push_row(rows, label, Some(v));
}

proof fn lemma_total_prefix(records: Seq<PortRecord>, wanted: spec_fn(PortCategory) -> bool, i: int)
    requires
        0 <= i <= records.len(),
    ensures
        connector_total(records.take(i), wanted) <= connector_total(records, wanted),
    decreases records.len() - i,
{
    if i < records.len() {
        lemma_total_prefix(records, wanted, i + 1);
        assert(records.take(i + 1).drop_last() =~= records.take(i));
    } else {
        assert(records.take(i) =~= records);
    }
}

fn total_among(records: &Vec<PortRecord>, a: PortCategory, b: PortCategory, c: PortCategory) -> (t: u64)
    requires
        connector_total(records@, among(a, b, c)) <= u32::MAX,
    ensures
        t as nat == connector_total(records@, among(a, b, c)),
{
    let mut t: u64 = 0;
    let mut i: usize = 0;
    while i < records.len()
        invariant
            i <= records@.len(),
            connector_total(records@, among(a, b, c)) <= u32::MAX,
            t as nat == connector_total(records@.take(i as int), among(a, b, c)),
        decreases records.len() - i,
    {
        proof {
            lemma_total_prefix(records@, among(a, b, c), i + 1);
            assert(records@.take(i + 1).drop_last() =~= records@.take(i as int));
        }
        let r = &records[i];
        if r.category == a || r.category == b || r.category == c {
            match r.count.value {
                Some(n) => {
                    t = t + n as u64;
                },
                None => {},
            }
        }
        i += 1;
    }
    assert(records@.take(records@.len() as int) =~= records@);
    t
}

proof fn lemma_total_bound(records: Seq<PortRecord>, wanted: spec_fn(PortCategory) -> bool)
    ensures
        connector_total(records, wanted) <= records.len() * 0xffff_ffff,
    decreases records.len(),
{
    if records.len() > 0 {
        lemma_total_bound(records.drop_last(), wanted);
    }
}

fn wide_total(records: &Vec<PortRecord>, a: PortCategory, b: PortCategory, c: PortCategory) -> (t: u128)
    ensures
        t as nat == connector_total(records@, among(a, b, c)),
{
    let mut t: u128 = 0;
    let mut i: usize = 0;
    while i < records.len()
        invariant
            i <= records@.len(),
            t as nat == connector_total(records@.take(i as int), among(a, b, c)),
        decreases records.len() - i,
    {
        proof {
            assert(records@.take(i + 1).drop_last() =~= records@.take(i as int));
            lemma_total_bound(records@.take(i as int), among(a, b, c));
            assert(records@.take(i as int).len() * 0xffff_ffff <= 0xffff_ffff_ffff_ffff * 0xffff_ffff)
                by (nonlinear_arith)
                requires
                    records@.take(i as int).len() <= 0xffff_ffff_ffff_ffff,
            ;
        }
        let r = &records[i];
        if r.category == a || r.category == b || r.category == c {
            match r.count.value {
                Some(n) => {
                    t = t + n as u128;
                },
                None => {},
            }
        }
        i += 1;
    }
    assert(records@.take(records@.len() as int) =~= records@);
    t
}

/// Whether the port sums fit, so that the rows can be printed.
pub fn port_sums_fit_check(records: &Vec<PortRecord>) -> (r: bool)
    ensures
        r == port_sums_fit(records@),
{
    wide_total(records, PortCategory::UsbA, PortCategory::UsbC, PortCategory::Usb4OrThunderbolt) <= 0xffff_ffff
        && wide_total(records, PortCategory::Hdmi, PortCategory::Hdmi, PortCategory::Hdmi) <= 0xffff_ffff
        && wide_total(records, PortCategory::DisplayPort, PortCategory::DisplayPort, PortCategory::DisplayPort)
        <= 0xffff_ffff && wide_total(records, PortCategory::Ethernet, PortCategory::Audio, PortCategory::Audio)
        <= 0xffff_ffff
}

fn push_connectors(rows: &mut Vec<(String, String)>, label: &str, total: u64)
    ensures
        rows_view(final(rows)@) == rows_view(old(rows)@) + connectors_row(label@, total as nat),
{
    if total > 0 {
        let mut v = number_text(total);
        append_str(&mut v, " firmware connectors");
        push_row(rows, label, Some(v));
    } else {
        assert(rows_view(rows@) =~= rows_view(rows@) + Seq::<(Seq<char>, Seq<char>)>::empty());
    }
}

fn push_port_rows(rows: &mut Vec<(String, String)>, records: &Vec<PortRecord>)
    requires
        port_sums_fit(records@),
    ensures
        rows_view(final(rows)@) == rows_view(old(rows)@) + port_rows(records@),
{
    let ghost before = rows_view(rows@);
    let usb = total_among(records, PortCategory::UsbA, PortCategory::UsbC, PortCategory::Usb4OrThunderbolt);
    push_connectors(rows, "USB ports", usb);
    let hdmi = total_among(records, PortCategory::Hdmi, PortCategory::Hdmi, PortCategory::Hdmi);
    push_connectors(rows, "HDMI ports", hdmi);
    let dp = total_among(records, PortCategory::DisplayPort, PortCategory::DisplayPort, PortCategory::DisplayPort);
    push_connectors(rows, "DisplayPort", dp);
    let jack = total_among(records, PortCategory::Ethernet, PortCategory::Audio, PortCategory::Audio);
    push_connectors(rows, "Ethernet / audio jacks", jack);
    assert(rows_view(rows@) =~= before + port_rows(records@));
}

/// The hardware rows shown to the customer, as (label, value), in order.
/// A value that firmware did not report is left out, except that the
/// required serials say they were not reported.
pub fn customer_hardware_fields(inventory: &HardwareInventoryV1) -> (rows: Vec<(String, String)>)
    requires
        port_sums_fit(inventory.ports.records@),
    ensures
        rows_view(rows@) == customer_rows(*inventory),
{
    let mut rows: Vec<(String, String)> = Vec::new();
    push_device_rows(&mut rows, inventory);
    push_firmware_rows(&mut rows, inventory);
    push_processor_rows(&mut rows, inventory);
    push_summary_rows(&mut rows, inventory);
    push_module_serials(&mut rows, &inventory.memory.modules.records);
    push_battery_rows(&mut rows, inventory);
    push_sensor_rows(&mut rows, &inventory.sensors.records, SensorCategory::Camera, "Cameras");
    push_sensor_rows(&mut rows, &inventory.sensors.records, SensorCategory::Microphone, "Microphones");
    push_port_rows(&mut rows, &inventory.ports.records);
    assert(rows_view(rows@) =~= customer_rows(*inventory));
    rows
}

} // verus!
