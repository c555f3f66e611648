//! The one-line details shown to the operator as each Advance scan stage
//! finishes, and the gap phrase for ports. Each says what was read, never
//! more.

use vstd::prelude::*;
use crate::battery_probe::BatteryProbe;
use crate::capture_probe::{device_names, CaptureProbe};
use crate::connectivity::{panel_name, usb_enumerated, usb_gap, usb_gap_text};
use crate::cpu_memory::{cache_text, inventory_complete_spec, CpuMemoryProbe};
use crate::diagnostics::scored_capacities;
use crate::display_radio::DisplayRadioProbe;
use crate::numtext::{dec, push_dec};
use crate::power_identity::{health_whole, no_battery_spec};
use crate::text::{append_str, join, owned, string_of};
use crate::usb_topology::UsbProbe;
use crate::storage_health::{outcome_in, scoring_spec, SourceOutcome, StorageProbe, StorageSource};

verus! {

pub open spec fn battery_progress_text(p: BatteryProbe) -> Seq<char> {
    match p.probe_error {
        Some(e) => e@,
        None => match scored_capacities(p) {
            Some((f, d)) => "Battery reported "@ + dec(health_whole(f, d)) + "% of its design capacity."@,
            None => if no_battery_spec(p) {
                "Windows reports no battery on this chassis."@
            } else {
                "The battery did not report a design capacity."@
            },
        },
    }
}

/// What the battery stage found.
pub fn battery_progress_detail(p: &BatteryProbe) -> (s: String)
    ensures
        s@ == battery_progress_text(*p),
{
    if let Some(error) = p.probe_error {
        return owned(error);
    }
    if let Some(r) = p.primary() {
        if let Some((f, d)) = r.capacity_basis() {
            let h: u64 = if f >= d {
                100
            } else {
                crate::power_identity::percent_of_whole(f, d)
            };
            let mut v: Vec<char> = Vec::new();
            append_str(&mut v, "Battery reported ");
            push_dec(&mut v, h);
            append_str(&mut v, "% of its design capacity.");
            return string_of(&v);
        }
    }
    if p.reports_no_battery() {
        owned("Windows reports no battery on this chassis.")
    } else {
        owned("The battery did not report a design capacity.")
    }
}

pub open spec fn usb_progress_text(p: UsbProbe) -> Seq<char> {
    match p.probe_error {
        Some(e) => e@,
        None => if !usb_enumerated(p) {
            "Windows did not enumerate USB controllers on this PC."@
        } else {
            "USB topology: "@ + dec(p.controllers@.len()) + " controller(s), "@ + dec(p.hubs@.len())
                + " hub(s), "@ + dec(p.devices@.len())
                + " attached device(s). Empty plastic connectors are not visible."@
        },
    }
}

/// What the USB stage found.
pub fn usb_progress_detail(p: &UsbProbe) -> (s: String)
    ensures
        s@ == usb_progress_text(*p),
{
    if let Some(error) = p.probe_error {
        return owned(error);
    }
    if !p.topology_enumerated() {
        return owned("Windows did not enumerate USB controllers on this PC.");
    }
    let mut v: Vec<char> = Vec::new();
    append_str(&mut v, "USB topology: ");
    push_dec(&mut v, p.controllers.len() as u64);
    append_str(&mut v, " controller(s), ");
    push_dec(&mut v, p.hubs.len() as u64);
    append_str(&mut v, " hub(s), ");
    push_dec(&mut v, p.devices.len() as u64);
    append_str(&mut v, " attached device(s). Empty plastic connectors are not visible.");
    string_of(&v)
}

/// The radio facts worth reporting, in order.
pub open spec fn radio_parts(r: DisplayRadioProbe) -> Seq<Seq<char>> {
    let wifi = match r.wifi {
        Some(w) => w.reporting(),
        None => false,
    };
    let ethernet = exists|i: int| 0 <= i < r.ethernet@.len() && (#[trigger] r.ethernet@[i]).state is Some;
    (if wifi {
        seq!["Wi-Fi adapter reporting"@]
    } else {
        Seq::empty()
    }) + (if r.bluetooth is Some {
        seq!["Bluetooth present"@]
    } else {
        Seq::empty()
    }) + (if ethernet {
        seq!["Ethernet link state readable"@]
    } else {
        Seq::empty()
    })
}

pub open spec fn radio_progress_text(r: DisplayRadioProbe) -> Seq<char> {
    match r.probe_error {
        Some(e) => e@,
        None => if radio_parts(r).len() == 0 {
            "No Wi-Fi, Bluetooth or Ethernet adapter reported on this PC. MAC addresses were not collected."@
        } else {
            join(radio_parts(r), "; "@) + ". MAC addresses were not collected."@
        },
    }
}

/// What the radio stage found. MAC addresses are never part of it.
pub fn radio_progress_detail(r: &DisplayRadioProbe) -> (s: String)
    ensures
        s@ == radio_progress_text(*r),
{
    if let Some(error) = r.probe_error {
        return owned(error);
    }
    let mut parts: Vec<Vec<char>> = Vec::new();
    if r.wifi_reporting() {
        parts.push(crate::text::chars_of("Wi-Fi adapter reporting"));
    }
    if r.bluetooth_present() {
        parts.push(crate::text::chars_of("Bluetooth present"));
    }
    if r.ethernet_link_readable() {
        parts.push(crate::text::chars_of("Ethernet link state readable"));
    }
    assert(crate::text::views(parts@) =~= radio_parts(*r));
    if parts.len() == 0 {
        return owned(
            "No Wi-Fi, Bluetooth or Ethernet adapter reported on this PC. MAC addresses were not collected.",
        );
    }
    let mut v: Vec<char> = Vec::new();
    crate::report::push_joined(&mut v, &parts, "; ");
    append_str(&mut v, ". MAC addresses were not collected.");
    string_of(&v)
}

pub open spec fn display_progress_text(r: DisplayRadioProbe) -> Seq<char> {
    match r.probe_error {
        Some(e) => e@,
        None => if r.panels@.len() == 0 {
            "Windows did not name a display panel in this scan."@
        } else {
            let panel = r.panels@[0];
            match (panel.native_width, panel.native_height) {
                (Some(w), Some(h)) => "Panel native resolution "@ + dec(w as nat) + "×"@ + dec(h as nat)
                    + " from EDID preferred timing, not the current desktop mode."@,
                _ => if panel.manufacturer is Some || panel.name is Some || panel.native_width is Some {
                    "Panel "@ + panel_name(panel) + " identified. Native resolution was not in the EDID block."@
                } else {
                    "Display identity was not returned. Native resolution stays not collected."@
                },
            }
        },
    }
}

/// What the display stage found: the EDID native resolution, never the
/// current desktop mode.
pub fn display_progress_detail(r: &DisplayRadioProbe) -> (s: String)
    ensures
        s@ == display_progress_text(*r),
{
    if let Some(error) = r.probe_error {
        return owned(error);
    }
    if r.panels.len() == 0 {
        return owned("Windows did not name a display panel in this scan.");
    }
    let panel = &r.panels[0];
    let mut v: Vec<char> = Vec::new();
    match (panel.native_width, panel.native_height) {
        (Some(w), Some(h)) => {
            append_str(&mut v, "Panel native resolution ");
            push_dec(&mut v, w as u64);
            append_str(&mut v, "×");
            push_dec(&mut v, h as u64);
            append_str(&mut v, " from EDID preferred timing, not the current desktop mode.");
        },
        _ => {
            if panel.identified() {
                append_str(&mut v, "Panel ");
                append_str(&mut v, panel.display_name().as_str());
                append_str(&mut v, " identified. Native resolution was not in the EDID block.");
            } else {
                append_str(&mut v, "Display identity was not returned. Native resolution stays not collected.");
            }
        },
    }
    string_of(&v)
}

pub open spec fn processor_progress_text(p: CpuMemoryProbe) -> Seq<char> {
    match p.probe_error {
        Some(e) => e@,
        None => match p.processor {
            None => "Windows did not name a processor in this scan."@,
            Some(cpu) => if cpu.name is Some && cpu.cores is Some && (cpu.l2_kb is Some || cpu.l3_kb is Some) {
                "Processor "@ + cpu.name.unwrap()@ + " · "@ + dec(cpu.cores.unwrap() as nat) + " core(s). Cache "@
                    + cache_text(cpu.l2_kb, cpu.l3_kb).unwrap() + "."@
            } else {
                "Processor "@ + (match cpu.name {
                    Some(n) => n@,
                    None => "unnamed"@,
                }) + " answered without a complete identity (model, cores and cache)."@
            },
        },
    }
}

/// What the processor stage found.
pub fn processor_progress_detail(p: &CpuMemoryProbe) -> (s: String)
    ensures
        s@ == processor_progress_text(*p),
{
    if let Some(error) = p.probe_error {
        return owned(error);
    }
    match &p.processor {
        None => owned("Windows did not name a processor in this scan."),
        Some(cpu) => {
            let mut v: Vec<char> = Vec::new();
            append_str(&mut v, "Processor ");
            if cpu.identity_complete() {
                match &cpu.name {
                    Some(n) => append_str(&mut v, n.as_str()),
                    None => append_str(&mut v, "named"),
                }
                append_str(&mut v, " · ");
                match cpu.cores {
                    Some(c) => push_dec(&mut v, c as u64),
                    None => push_dec(&mut v, 0),
                }
                append_str(&mut v, " core(s). Cache ");
                match cpu.cache_summary() {
                    Some(c) => append_str(&mut v, c.as_str()),
                    None => append_str(&mut v, "not reported"),
                }
                append_str(&mut v, ".");
            } else {
                match &cpu.name {
                    Some(n) => append_str(&mut v, n.as_str()),
                    None => append_str(&mut v, "unnamed"),
                }
                append_str(&mut v, " answered without a complete identity (model, cores and cache).");
            }
            string_of(&v)
        },
    }
}

pub open spec fn memory_progress_text(p: CpuMemoryProbe) -> Seq<char> {
    match p.probe_error {
        Some(e) => e@,
        None => if inventory_complete_spec(p) {
            "Memory inventory: "@ + dec(p.modules@.len()) + " module(s). Channel mode is not inferred."@
        } else {
            "Memory modules were not fully reported in this scan."@
        },
    }
}

/// What the memory stage found. Channel mode is never inferred.
pub fn memory_progress_detail(p: &CpuMemoryProbe) -> (s: String)
    ensures
        s@ == memory_progress_text(*p),
{
    if let Some(error) = p.probe_error {
        return owned(error);
    }
    if p.inventory_complete() {
        let mut v: Vec<char> = Vec::new();
        append_str(&mut v, "Memory inventory: ");
        push_dec(&mut v, p.modules.len() as u64);
        append_str(&mut v, " module(s). Channel mode is not inferred.");
        return string_of(&v);
    }
    owned("Memory modules were not fully reported in this scan.")
}

pub open spec fn bench_progress_text(consented: bool, bytes_written: u64) -> Seq<char> {
    if !consented {
        "Benchmarks were not permitted, so none were run."@
    } else if bytes_written > 0 {
        "Consented workloads finished. "@ + dec(bytes_written as nat)
            + " bytes were written to the Windows temporary folder."@
    } else {
        "Consented CPU, memory and storage read workloads finished. Nothing was written to an assessed drive."@
    }
}

/// What the benchmark stage did, given the consent and the bytes the
/// benchmarks wrote.
pub fn bench_progress_detail(consented: bool, bytes_written: u64) -> (s: String)
    ensures
        s@ == bench_progress_text(consented, bytes_written),
{
    if !consented {
        return owned("Benchmarks were not permitted, so none were run.");
    }
    if bytes_written > 0 {
        let mut v: Vec<char> = Vec::new();
        append_str(&mut v, "Consented workloads finished. ");
        push_dec(&mut v, bytes_written);
        append_str(&mut v, " bytes were written to the Windows temporary folder.");
        return string_of(&v);
    }
    owned("Consented CPU, memory and storage read workloads finished. Nothing was written to an assessed drive.")
}

pub open spec fn capture_progress_text(p: CaptureProbe) -> Seq<char> {
    match p.probe_error {
        Some(e) => e@,
        None => "Found "@ + dec(device_names(p.cameras@).len()) + " camera(s) and "@ + dec(
            device_names(p.microphones@).len(),
        ) + " microphone(s). No image or audio was captured."@,
    }
}

/// What the capture stage found. Nothing is captured.
pub fn capture_progress_detail(p: &CaptureProbe) -> (s: String)
    ensures
        s@ == capture_progress_text(*p),
{
    if let Some(error) = p.probe_error {
        return owned(error);
    }
    let cameras = p.camera_names().len();
    let mics = p.microphone_names().len();
    let mut v: Vec<char> = Vec::new();
    append_str(&mut v, "Found ");
    push_dec(&mut v, cameras as u64);
    append_str(&mut v, " camera(s) and ");
    push_dec(&mut v, mics as u64);
    append_str(&mut v, " microphone(s). No image or audio was captured.");
    string_of(&v)
}

pub open spec fn ports_gap_text(u: UsbProbe, r: DisplayRadioProbe) -> Seq<char> {
    if u.probe_error is Some && r.probe_error is Some {
        "Port topology and radio telemetry could not run on this PC"@
    } else if !usb_enumerated(u) {
        usb_gap_text(u)
    } else {
        "Wi-Fi, Bluetooth and Ethernet adapters were not returned in this scan"@
    }
}

/// Why the ports domain could not be assessed.
pub fn ports_gap(u: &UsbProbe, r: &DisplayRadioProbe) -> (s: &'static str)
    ensures
        s@ == ports_gap_text(*u, *r),
{
    if u.probe_error.is_some() && r.probe_error.is_some() {
        return "Port topology and radio telemetry could not run on this PC";
    }
    if !u.topology_enumerated() {
        return usb_gap(u);
    }
    "Wi-Fi, Bluetooth and Ethernet adapters were not returned in this scan"
}


pub open spec fn storage_refused(s: StorageProbe) -> bool {
    outcome_in(s.sources@, StorageSource::ReliabilityCounter) == SourceOutcome::PermissionDenied
        || outcome_in(s.sources@, StorageSource::PredictFailure) == SourceOutcome::PermissionDenied
}

pub open spec fn storage_progress_text(s: StorageProbe) -> Seq<char> {
    match s.probe_error {
        Some(e) => e@,
        None => if storage_refused(s) {
            "Windows refused storage SMART on this account. Report D will still be written."@
        } else if s.drives@.len() == 0 {
            "Windows did not name a storage device."@
        } else if scoring_spec(s.drives@).len() > 0 {
            "Read identity and SMART on "@ + dec(s.drives@.len()) + " storage device(s). No data was erased."@
        } else {
            "Identified "@ + dec(s.drives@.len()) + " storage device(s). SMART health was not returned."@
        },
    }
}

/// What the storage stage found: SMART read on every drive counted, or
/// only their identity.
pub fn storage_progress_detail(s: &StorageProbe) -> (r: String)
    ensures
        r@ == storage_progress_text(*s),
{
    if let Some(error) = s.probe_error {
        return owned(error);
    }
    if s.reliability_refused() {
        return owned("Windows refused storage SMART on this account. Report D will still be written.");
    }
    let count = s.drives.len();
    if count == 0 {
        return owned("Windows did not name a storage device.");
    }
    let mut v: Vec<char> = Vec::new();
    if s.scoring_drives().len() > 0 {
        append_str(&mut v, "Read identity and SMART on ");
        push_dec(&mut v, count as u64);
        append_str(&mut v, " storage device(s). No data was erased.");
    } else {
        append_str(&mut v, "Identified ");
        push_dec(&mut v, count as u64);
        append_str(&mut v, " storage device(s). SMART health was not returned.");
    }
    string_of(&v)
}

} // verus!
