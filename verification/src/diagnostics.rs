//! Report D: the customer-facing shape of an Advance scan.

use vstd::prelude::*;
use crate::battery_probe::{primary_index, wear_basis, BatteryProbe};
use crate::customer::named_views;
use crate::hardware_diagnostics_v1::{
    CoverageSummary, DeviceForm, DiagnosticDomain, DomainApplicability, DomainEvidence, GradeBand,
};
use crate::hardware_inventory_v1::Confidence;
use crate::numtext::{dec, push_dec};
use crate::power_identity::no_battery_spec;
use crate::telemetry::{push_row, Rows};
use crate::text::{append_str, owned, string_of};
use crate::NamedValue;

verus! {

/// A titled block of Report D rows.
#[derive(Debug, Clone)]
pub struct TelemetryGroup {
    pub title: String,
    pub note: Option<String>,
    pub rows: Vec<NamedValue>,
}

/// One row of the per-domain coverage table on Report D.
#[derive(Debug, Clone)]
pub struct DomainCoverageRow {
    pub domain: String,
    pub awarded: u32,
    pub assessed: u32,
    pub not_assessable: u32,
    pub weight: u32,
    pub state: String,
    pub confidence: String,
    pub note: String,
}

/// Everything Report D prints, already reduced to customer-safe strings.
#[derive(Debug, Clone)]
pub struct CustomerAdvanceScan {
    pub ok: bool,
    pub message: String,
    pub schema_version: &'static str,
    pub elevation_state: &'static str,
    pub elevation_label: &'static str,
    pub benchmarks_consented: bool,
    pub write_benchmark_consented: bool,
    pub bytes_written: u64,
    pub temporary_files_note: String,
    pub destructive_operations_enabled: bool,
    pub content_inspected: bool,
    pub boundary_note: String,
    pub telemetry_groups: Vec<TelemetryGroup>,
    pub coverage_rows: Vec<NamedValue>,
    pub coverage_domains: Vec<DomainCoverageRow>,
    pub method_rows: Vec<NamedValue>,
    pub rubric_rows: Vec<NamedValue>,
    pub not_assessable: Vec<String>,
    pub grading_engine: &'static str,
    pub grading_rubric: &'static str,
    pub grade_label: &'static str,
    pub grade_condition: &'static str,
    pub grade_observation: Option<&'static str>,
    pub grade_withheld: bool,
    pub grade_withheld_reason: Option<String>,
    pub issuance_notice: &'static str,
    pub coverage_percent: u32,
    pub index_percent: Option<u32>,
    pub provisional: bool,
}

// ---- outcome and boundary ----

pub open spec fn outcome_text(summary: CoverageSummary, wrote_without_consent: bool) -> Seq<char> {
    if wrote_without_consent {
        "CYVRA stopped Advance scan because a write was recorded without consent."@
    } else if summary.band == GradeBand::NotGradable {
        "Advance scan finished. Coverage "@ + dec(summary.coverage_percent as nat)
            + "%. No grade was issued because too little of this device could be assessed."@
    } else {
        "Advance scan finished. Provisional grade "@ + summary.band.label_text() + " from "@ + dec(
            summary.coverage_percent as nat,
        ) + "% coverage."@
    }
}

/// The one-line outcome printed at the top of Report D.
pub fn outcome_message(summary: &CoverageSummary, wrote_without_consent: bool) -> (m: String)
    ensures
        m@ == outcome_text(*summary, wrote_without_consent),
{
    if wrote_without_consent {
        return owned("CYVRA stopped Advance scan because a write was recorded without consent.");
    }
    let mut v: Vec<char> = Vec::new();
    if summary.is_withheld() {
        append_str(&mut v, "Advance scan finished. Coverage ");
        push_dec(&mut v, summary.coverage_percent as u64);
        append_str(&mut v, "%. No grade was issued because too little of this device could be assessed.");
    } else {
        append_str(&mut v, "Advance scan finished. Provisional grade ");
        append_str(&mut v, summary.band.label());
        append_str(&mut v, " from ");
        push_dec(&mut v, summary.coverage_percent as u64);
        append_str(&mut v, "% coverage.");
    }
    string_of(&v)
}

pub open spec fn boundary_text(benchmarks_consented: bool, bytes_written: u64) -> Seq<char> {
    "Advance scan collection is read-only. "@ + (if benchmarks_consented {
        "Benchmarks were permitted by the operator."@
    } else {
        "Benchmarks were not permitted, so none were run."@
    }) + " "@ + (if bytes_written == 0 {
        "Nothing was written to any assessed drive."@
    } else {
        "A temporary benchmark file was written and removed."@
    }) + " File contents were not opened. No data was erased. Purge stays off."@
}

/// What Advance scan did and did not touch, in one paragraph.
pub fn boundary_note(benchmarks_consented: bool, bytes_written: u64) -> (n: String)
    ensures
        n@ == boundary_text(benchmarks_consented, bytes_written),
{
    let mut v: Vec<char> = Vec::new();
    append_str(&mut v, "Advance scan collection is read-only. ");
    if benchmarks_consented {
        append_str(&mut v, "Benchmarks were permitted by the operator.");
    } else {
        append_str(&mut v, "Benchmarks were not permitted, so none were run.");
    }
    append_str(&mut v, " ");
    if bytes_written == 0 {
        append_str(&mut v, "Nothing was written to any assessed drive.");
    } else {
        append_str(&mut v, "A temporary benchmark file was written and removed.");
    }
    append_str(&mut v, " File contents were not opened. No data was erased. Purge stays off.");
    string_of(&v)
}

pub open spec fn battery_file_text(removed: bool) -> Seq<char> {
    if removed {
        "One temporary battery report was written to the Windows temporary folder by powercfg and then deleted. It was not written to an assessed drive."@
    } else {
        "One temporary battery report was written to the Windows temporary folder by powercfg and could not be confirmed as deleted."@
    }
}

pub open spec fn bench_file_text(removed: bool) -> Seq<char> {
    if removed {
        "One temporary benchmark file was written to the Windows temporary folder and then deleted. It was not written as a wipe."@
    } else {
        "One temporary benchmark file was written to the Windows temporary folder and could not be confirmed as deleted."@
    }
}

/// Every temporary file the scan created, and whether it was removed.
pub open spec fn temporary_files_text(
    battery_written: bool,
    battery_removed: bool,
    bench_bytes: u64,
    bench_removed: bool,
) -> Seq<char> {
    if battery_written && bench_bytes > 0 {
        battery_file_text(battery_removed) + " "@ + bench_file_text(bench_removed)
    } else if battery_written {
        battery_file_text(battery_removed)
    } else if bench_bytes > 0 {
        bench_file_text(bench_removed)
    } else {
        "No temporary file was created by this scan."@
    }
}

/// The temporary-files note: the battery report powercfg wrote, and the
/// benchmark file a consented write test wrote (`bench_bytes_written` bytes).
pub fn temporary_files_note(battery: &BatteryProbe, bench_bytes_written: u64, bench_file_removed: bool) -> (n: String)
    ensures
        n@ == temporary_files_text(
            battery.temporary_file_written,
            battery.temporary_file_removed,
            bench_bytes_written,
            bench_file_removed,
        ),
{
    let mut v: Vec<char> = Vec::new();
    if battery.temporary_file_written {
        if battery.temporary_file_removed {
            append_str(&mut v, "One temporary battery report was written to the Windows temporary folder by powercfg and then deleted. It was not written to an assessed drive.");
        } else {
            append_str(&mut v, "One temporary battery report was written to the Windows temporary folder by powercfg and could not be confirmed as deleted.");
        }
    }
    if bench_bytes_written > 0 {
        if battery.temporary_file_written {
            append_str(&mut v, " ");
        }
        if bench_file_removed {
            append_str(&mut v, "One temporary benchmark file was written to the Windows temporary folder and then deleted. It was not written as a wipe.");
        } else {
            append_str(&mut v, "One temporary benchmark file was written to the Windows temporary folder and could not be confirmed as deleted.");
        }
    }
    if !battery.temporary_file_written && bench_bytes_written == 0 {
        return owned("No temporary file was created by this scan.");
    }
    string_of(&v)
}

// ---- coverage ----

pub open spec fn index_text(index: Option<u32>) -> Seq<char> {
    match index {
        Some(i) => dec(i as nat) + " / 100"@,
        None => "Not assessable in this scan"@,
    }
}

/// The coverage block's rows.
pub open spec fn coverage_rows_spec(s: CoverageSummary) -> Rows {
    seq![
        ("Points in scope"@, dec(s.in_scope_points as nat)),
        ("Points assessed"@, dec(s.assessed_points as nat)),
        ("Points awarded"@, dec(s.awarded_points as nat)),
        ("Points not assessable"@, dec(s.not_assessable_points as nat)),
        ("Coverage"@, dec(s.coverage_percent as nat) + "%"@),
        ("Assessed Health Index"@, index_text(s.index_percent)),
        ("Grading engine"@, s.engine@),
        ("Rubric"@, s.rubric@),
    ]
}

/// The coverage block printed on Report D.
pub fn coverage_rows(s: &CoverageSummary) -> (rows: Vec<NamedValue>)
    ensures
        named_views(rows@) == coverage_rows_spec(*s),
{
    let mut rows: Vec<NamedValue> = Vec::new();
    push_row(&mut rows, "Points in scope", crate::numtext::dec_string(s.in_scope_points as u64));
    push_row(&mut rows, "Points assessed", crate::numtext::dec_string(s.assessed_points as u64));
    push_row(&mut rows, "Points awarded", crate::numtext::dec_string(s.awarded_points as u64));
    push_row(
        &mut rows,
        "Points not assessable",
        crate::numtext::dec_string(s.not_assessable_points as u64),
    );
    let mut c: Vec<char> = Vec::new();
    push_dec(&mut c, s.coverage_percent as u64);
    append_str(&mut c, "%");
    push_row(&mut rows, "Coverage", string_of(&c));
    let index = match s.index_percent {
        Some(i) => {
            let mut v: Vec<char> = Vec::new();
            push_dec(&mut v, i as u64);
            append_str(&mut v, " / 100");
            string_of(&v)
        },
        None => owned("Not assessable in this scan"),
    };
    push_row(&mut rows, "Assessed Health Index", index);
    push_row(&mut rows, "Grading engine", owned(s.engine));
    push_row(&mut rows, "Rubric", owned(s.rubric));
    assert(named_views(rows@) =~= coverage_rows_spec(*s));
    rows
}

pub open spec fn state_text(e: DomainEvidence) -> Seq<char> {
    match e.applicability {
        DomainApplicability::NotApplicable => "Not applicable"@,
        DomainApplicability::Assessable => if e.assessed == 0 {
            "Not assessable"@
        } else if e.assessed == e.domain.points() {
            "Fully assessed"@
        } else {
            "Partly assessed"@
        },
    }
}

pub open spec fn confidence_text(c: Confidence) -> Seq<char> {
    match c {
        Confidence::High => "high"@,
        Confidence::Medium => "medium"@,
        Confidence::Low => "low"@,
        Confidence::Unknown => "unknown"@,
    }
}

/// The coverage-table row printed for one domain's evidence.
pub open spec fn coverage_row_of(r: DomainCoverageRow, e: DomainEvidence) -> bool {
    &&& r.domain@ == e.domain.label_text()
    &&& r.awarded == e.awarded
    &&& r.assessed == e.assessed
    &&& r.not_assessable == e.gap()
    &&& r.weight == e.domain.points()
    &&& r.state@ == state_text(e)
    &&& r.confidence@ == confidence_text(e.confidence)
    &&& r.note@ == (match e.note {
        Some(n) => n@,
        None => "Measured"@,
    })
}

fn coverage_row(e: &DomainEvidence) -> (r: DomainCoverageRow)
    ensures
        coverage_row_of(r, *e),
{
    let weight = e.domain.weight();
    let state = match e.applicability {
        DomainApplicability::NotApplicable => "Not applicable",
        DomainApplicability::Assessable => if e.assessed == 0 {
            "Not assessable"
        } else if e.assessed == weight {
            "Fully assessed"
        } else {
            "Partly assessed"
        },
    };
    let confidence = match e.confidence {
        Confidence::High => "high",
        Confidence::Medium => "medium",
        Confidence::Low => "low",
        Confidence::Unknown => "unknown",
    };
    let note = match &e.note {
        Some(n) => n.clone(),
        None => owned("Measured"),
    };
    DomainCoverageRow {
        domain: owned(e.domain.label()),
        awarded: e.awarded,
        assessed: e.assessed,
        not_assessable: e.not_assessable_points(),
        weight,
        state: owned(state),
        confidence: owned(confidence),
        note,
    }
}

/// The per-domain coverage table, one row per domain in order.
pub fn coverage_domains(evidence: &[DomainEvidence]) -> (rows: Vec<DomainCoverageRow>)
    ensures
        rows@.len() == evidence@.len(),
        forall|i: int| 0 <= i < rows@.len() ==> coverage_row_of(#[trigger] rows@[i], evidence@[i]),
{
    let mut rows: Vec<DomainCoverageRow> = Vec::new();
    let mut i: usize = 0;
    while i < evidence.len()
        invariant
            i <= evidence@.len(),
            rows@.len() == i,
            forall|k: int| 0 <= k < i ==> coverage_row_of(#[trigger] rows@[k], evidence@[k]),
        decreases evidence.len() - i,
    {
        rows.push(coverage_row(&evidence[i]));
        i += 1;
    }
    rows
}

pub open spec fn gap_line(e: DomainEvidence) -> Seq<char> {
    e.domain.label_text() + " — "@ + (match e.note {
        Some(n) => n@,
        None => "not assessed"@,
    }) + " ("@ + dec(e.gap()) + " of "@ + dec(e.domain.points()) + " points)"@
}

pub open spec fn has_gap(e: DomainEvidence) -> bool {
    e.applicability == DomainApplicability::Assessable && e.gap() > 0
}

/// One line for every applicable domain with points left unassessed, in
/// domain order.
pub open spec fn gap_lines(ev: Seq<DomainEvidence>) -> Seq<Seq<char>>
    decreases ev.len(),
{
    if ev.len() == 0 {
        Seq::empty()
    } else if has_gap(ev.last()) {
        gap_lines(ev.drop_last()).push(gap_line(ev.last()))
    } else {
        gap_lines(ev.drop_last())
    }
}

/// What could not be assessed, and how many points that left out.
pub fn not_assessable(evidence: &[DomainEvidence]) -> (lines: Vec<String>)
    ensures
        crate::text::string_views(lines@) == gap_lines(evidence@),
{
    let mut lines: Vec<String> = Vec::new();
    let mut i: usize = 0;
    while i < evidence.len()
        invariant
            i <= evidence@.len(),
            crate::text::string_views(lines@) == gap_lines(evidence@.take(i as int)),
        decreases evidence.len() - i,
    {
        let e = &evidence[i];
        assert(evidence@.take(i + 1).drop_last() =~= evidence@.take(i as int));
        let gap = e.not_assessable_points();
        let applies = match e.applicability {
            DomainApplicability::Assessable => true,
            DomainApplicability::NotApplicable => false,
        };
        if applies && gap > 0 {
            let mut v: Vec<char> = Vec::new();
            append_str(&mut v, e.domain.label());
            append_str(&mut v, " — ");
            match &e.note {
                Some(n) => append_str(&mut v, n.as_str()),
                None => append_str(&mut v, "not assessed"),
            }
            append_str(&mut v, " (");
            push_dec(&mut v, gap as u64);
            append_str(&mut v, " of ");
            push_dec(&mut v, e.domain.weight() as u64);
            append_str(&mut v, " points)");
            let line = string_of(&v);
            let ghost prior = crate::text::string_views(lines@);
            let ghost lv = line@;
            lines.push(line);
            assert(crate::text::string_views(lines@) =~= prior.push(lv));
        }
        i += 1;
    }
    assert(evidence@.take(i as int) =~= evidence@);
    lines
}

// ---- battery evidence ----

/// Battery points from rubric CG-1.0 for a health of `full` over `design`
/// (capped at 100%): 20 from 85%, 16 from 75%, 11 from 60%, 6 from 50%.
pub open spec fn battery_points_spec(full: u64, design: u64) -> u32 {
    if 20 * full >= 17 * design {
        20
    } else if 4 * full >= 3 * design {
        16
    } else if 5 * full >= 3 * design {
        11
    } else if 2 * full >= design {
        6
    } else {
        0
    }
}

/// Battery points for a health of `full` over `design`.
pub fn battery_points_for(full: u64, design: u64) -> (p: u32)
    ensures
        p == battery_points_spec(full, design),
{
    let f = full as u128;
    let d = design as u128;
    if 20 * f >= 17 * d {
        20
    } else if 4 * f >= 3 * d {
        16
    } else if 5 * f >= 3 * d {
        11
    } else if 2 * f >= d {
        6
    } else {
        0
    }
}

/// The capacities the battery domain is scored from: those of the reading
/// Report D reports on, when both are real and sane.
pub open spec fn scored_capacities(p: BatteryProbe) -> Option<(u64, u64)> {
    match primary_index(p.readings@) {
        Some(i) => wear_basis(p.readings@[i]),
        None => None,
    }
}

/// The battery domain's evidence: points from measured health, an
/// exemption only where the chassis cannot hold a battery, a gap otherwise.
pub open spec fn battery_evidence_ok(e: DomainEvidence, p: BatteryProbe, form: DeviceForm) -> bool {
    &&& e.domain == DiagnosticDomain::BatteryAndPower
    &&& match scored_capacities(p) {
        Some((f, d)) => {
            &&& e.applicability == DomainApplicability::Assessable
            &&& e.assessed == 20
            &&& e.awarded == battery_points_spec(f, d)
            &&& e.confidence == Confidence::High
            &&& e.note is None
        },
        None => if no_battery_spec(p) && form == DeviceForm::Fixed {
            &&& e.applicability == DomainApplicability::NotApplicable
            &&& e.assessed == 0
            &&& e.awarded == 0
            &&& e.note is Some && e.note.unwrap()@ == "Windows reports no battery and this chassis is not portable"@
        } else {
            &&& e.applicability == DomainApplicability::Assessable
            &&& e.assessed == 0
            &&& e.awarded == 0
            &&& e.note is Some && e.note.unwrap()@ == (if no_battery_spec(p) {
                "Windows reported no battery on a chassis that should have one"@
            } else {
                crate::power_identity::battery_gap_text(p)
            })
        },
    }
}

/// The battery domain, scored from the reported health.
pub fn battery_evidence(p: &BatteryProbe, form: DeviceForm) -> (e: DomainEvidence)
    ensures
        battery_evidence_ok(e, *p, form),
        e.consistent(),
{
    let domain = DiagnosticDomain::BatteryAndPower;
    if let Some(r) = p.primary() {
        if let Some((f, d)) = r.capacity_basis() {
            return DomainEvidence::measured(domain, battery_points_for(f, d), domain.weight(), Confidence::High);
        }
    }
    if p.reports_no_battery() {
        match form {
            DeviceForm::Fixed => DomainEvidence::not_applicable(
                domain,
                "Windows reports no battery and this chassis is not portable",
            ),
            _ => DomainEvidence::not_assessable(
                domain,
                "Windows reported no battery on a chassis that should have one",
            ),
        }
    } else {
        DomainEvidence::not_assessable(domain, crate::power_identity::battery_gap(p))
    }
}

// ---- method and rubric ----

/// The method block: how each value was read, and what is never read.
pub open spec fn method_rows_spec() -> Rows {
    seq![
        ("Collection mode"@, "Read-only. Windows management classes, firmware tables, Windows' own battery report, storage reliability counters, EDID, and network adapters. MAC addresses are never collected."@),
        ("Battery capacity"@, "Design capacity and full-charge capacity as reported by firmware. Wear is the difference between them, never inferred from a charge level."@),
        ("Temperatures and fan speed"@, "Not collected. Reading CPU package temperature or fan RPM requires a kernel-mode sensor driver. CYVRA does not ship one, because the drivers commonly used for this are on Microsoft's vulnerable-driver blocklist."@),
        ("Memory testing"@, "A user-mode pattern check can never cover memory the kernel occupies, so full-coverage memory testing belongs to a pre-boot environment. Advance scan never prints 'memory verified'."@),
        ("Processor clock"@, "Identity is collected without a workload. The 16 sustained-clock points are awarded only after a consented CPU loop, from Windows current/max megahertz. Package temperature is not collected."@),
        ("Benchmarks"@, "CPU, memory and storage-read workloads run only when the operator allows benchmarks. The write test needs a second permission, writes one temporary file, then deletes it. Predicted-failure disks are not exercised."@),
        ("Storage SMART"@, "Advance scan reads disk identity, Windows storage reliability counters and the SMART predict-failure bit. It never issues a write, erase, TRIM, format, sanitize or firmware-update command. Available spare is printed only when Windows returns it."@),
        ("Physical ports"@, "Windows exposes USB controller topology and attached devices, not the plastic connectors. A port is only confirmed when a technician inserts a test device. Insertion is operator-attested; this scan does not write to the stick or to an assessed drive."@),
        ("Display panel"@, "Native width and height come from the EDID preferred timing, never from the current desktop mode. HDR is not guessed. Colour-wash points are awarded only after a technician attests the inspection."@),
        ("Radios"@, "Wi-Fi, Bluetooth and Ethernet adapters are enumerated without printing a MAC address. Signal quality is printed only when Windows returns it."@),
        ("Cameras and microphones"@, "Advance scan enumerates capture devices across several PnP classes, including the USB video service that the Camera ClassGuid misses. No frame is captured and no audio is recorded. Presence confirmation is an operator attestation, not a live preview."@),
        ("Keyboard"@, "A webview cannot see Fn combinations and some OEM hotkeys. Keyboard points are awarded only when the operator attests the keys they could try. Keystrokes are not stored."@),
        ("Unknown values"@, "A value that was not read is printed as not collected. It is never replaced with zero and never estimated."@),
    ]
}

/// The method block printed on Report D.
pub fn method_rows() -> (rows: Vec<NamedValue>)
    ensures
        named_views(rows@) == method_rows_spec(),
{
    let mut rows: Vec<NamedValue> = Vec::new();
    push_row(&mut rows, "Collection mode", owned("Read-only. Windows management classes, firmware tables, Windows' own battery report, storage reliability counters, EDID, and network adapters. MAC addresses are never collected."));
    push_row(&mut rows, "Battery capacity", owned("Design capacity and full-charge capacity as reported by firmware. Wear is the difference between them, never inferred from a charge level."));
    push_row(&mut rows, "Temperatures and fan speed", owned("Not collected. Reading CPU package temperature or fan RPM requires a kernel-mode sensor driver. CYVRA does not ship one, because the drivers commonly used for this are on Microsoft's vulnerable-driver blocklist."));
    push_row(&mut rows, "Memory testing", owned("A user-mode pattern check can never cover memory the kernel occupies, so full-coverage memory testing belongs to a pre-boot environment. Advance scan never prints 'memory verified'."));
    push_row(&mut rows, "Processor clock", owned("Identity is collected without a workload. The 16 sustained-clock points are awarded only after a consented CPU loop, from Windows current/max megahertz. Package temperature is not collected."));
    push_row(&mut rows, "Benchmarks", owned("CPU, memory and storage-read workloads run only when the operator allows benchmarks. The write test needs a second permission, writes one temporary file, then deletes it. Predicted-failure disks are not exercised."));
    push_row(&mut rows, "Storage SMART", owned("Advance scan reads disk identity, Windows storage reliability counters and the SMART predict-failure bit. It never issues a write, erase, TRIM, format, sanitize or firmware-update command. Available spare is printed only when Windows returns it."));
    push_row(&mut rows, "Physical ports", owned("Windows exposes USB controller topology and attached devices, not the plastic connectors. A port is only confirmed when a technician inserts a test device. Insertion is operator-attested; this scan does not write to the stick or to an assessed drive."));
    push_row(&mut rows, "Display panel", owned("Native width and height come from the EDID preferred timing, never from the current desktop mode. HDR is not guessed. Colour-wash points are awarded only after a technician attests the inspection."));
    push_row(&mut rows, "Radios", owned("Wi-Fi, Bluetooth and Ethernet adapters are enumerated without printing a MAC address. Signal quality is printed only when Windows returns it."));
    push_row(&mut rows, "Cameras and microphones", owned("Advance scan enumerates capture devices across several PnP classes, including the USB video service that the Camera ClassGuid misses. No frame is captured and no audio is recorded. Presence confirmation is an operator attestation, not a live preview."));
    push_row(&mut rows, "Keyboard", owned("A webview cannot see Fn combinations and some OEM hotkeys. Keyboard points are awarded only when the operator attests the keys they could try. Keystrokes are not stored."));
    push_row(&mut rows, "Unknown values", owned("A value that was not read is printed as not collected. It is never replaced with zero and never estimated."));
    assert(named_views(rows@) =~= method_rows_spec());
    rows
}

pub open spec fn weight_row(d: DiagnosticDomain) -> (Seq<char>, Seq<char>) {
    (d.label_text(), dec(d.points()) + " points of 100"@)
}

/// The rubric block: every domain's weight, then the grading rules.
pub open spec fn rubric_rows_spec() -> Rows {
    seq![
        weight_row(DiagnosticDomain::BatteryAndPower),
        weight_row(DiagnosticDomain::ProcessorAndThermal),
        weight_row(DiagnosticDomain::MemoryIntegrity),
        weight_row(DiagnosticDomain::StorageHealth),
        weight_row(DiagnosticDomain::PortsAndConnectivity),
        weight_row(DiagnosticDomain::ScreenAndPeripherals),
        ("Grade bands"@, "A+ 90-100, A 80-89, B 65-79, C 50-64, F below 50, on the assessed index"@),
        (
            "Coverage floor"@,
            "Below 70% coverage, or with a required area unassessed, the grade is withheld rather than banded"@,
        ),
        (
            "Confirmed fault"@,
            "A measured critical fault forces F, because that is evidence held rather than evidence missing"@,
        ),
    ]
}

fn push_weight_row(rows: &mut Vec<NamedValue>, d: DiagnosticDomain)
    ensures
        named_views(final(rows)@) == named_views(old(rows)@).push(weight_row(d)),
{
    let mut v: Vec<char> = Vec::new();
    push_dec(&mut v, d.weight() as u64);
    append_str(&mut v, " points of 100");
    push_row(rows, d.label(), string_of(&v));
}

/// The rubric block printed on Report D.
pub fn rubric_rows() -> (rows: Vec<NamedValue>)
    ensures
        named_views(rows@) == rubric_rows_spec(),
{
    let mut rows: Vec<NamedValue> = Vec::new();
    push_weight_row(&mut rows, DiagnosticDomain::BatteryAndPower);
    push_weight_row(&mut rows, DiagnosticDomain::ProcessorAndThermal);
    push_weight_row(&mut rows, DiagnosticDomain::MemoryIntegrity);
    push_weight_row(&mut rows, DiagnosticDomain::StorageHealth);
    push_weight_row(&mut rows, DiagnosticDomain::PortsAndConnectivity);
    push_weight_row(&mut rows, DiagnosticDomain::ScreenAndPeripherals);
    push_row(
        &mut rows,
        "Grade bands",
        owned("A+ 90-100, A 80-89, B 65-79, C 50-64, F below 50, on the assessed index"),
    );
    push_row(
        &mut rows,
        "Coverage floor",
        owned("Below 70% coverage, or with a required area unassessed, the grade is withheld rather than banded"),
    );
    push_row(
        &mut rows,
        "Confirmed fault",
        owned("A measured critical fault forces F, because that is evidence held rather than evidence missing"),
    );
    assert(named_views(rows@) =~= rubric_rows_spec());
    rows
}

// ---- the groups, in print order ----

/// Every telemetry group Report D prints, in order: power, processor,
/// memory, storage, ports, radios, display, capture and benchmarks, each
/// followed by the sources it asked. `physical_ports` is what the technician
/// recorded for physical insertion; `bench` holds the five workload status
/// lines.
pub fn telemetry_groups(
    battery: &BatteryProbe,
    storage: &crate::storage_health::StorageProbe,
    usb: &crate::usb_topology::UsbProbe,
    radios: &crate::display_radio::DisplayRadioProbe,
    capture: &crate::capture_probe::CaptureProbe,
    identity: &crate::cpu_memory::CpuMemoryProbe,
    physical_ports: &str,
    bench: [&str; 5],
) -> (groups: Vec<TelemetryGroup>)
    ensures
        groups@.len() == 15,
        crate::telemetry::group_is(
            groups@[0],
            "Battery and power"@,
            if battery.probe_error is None && primary_index(battery.readings@) is Some
                && crate::power_identity::any_relative(*battery) {
                Some(crate::battery_probe::RELATIVE_CAPACITY_NOTE@)
            } else {
                None
            },
            crate::power_identity::battery_rows(*battery),
        ),
        groups@[1].title@ == "Battery sources consulted"@,
        named_views(groups@[1].rows@) == crate::power_identity::battery_source_rows(*battery),
        groups@[2].title@ == "Processor and thermal"@,
        named_views(groups@[2].rows@) == crate::power_identity::processor_rows(*identity),
        groups@[3].title@ == "Memory"@,
        named_views(groups@[3].rows@) == crate::power_identity::memory_rows(*identity),
        groups@[4].title@ == "Processor and memory sources consulted"@,
        named_views(groups@[4].rows@) == crate::power_identity::identity_source_rows(*identity),
        groups@[5].title@ == "Storage health and SMART"@,
        named_views(groups@[5].rows@) == crate::telemetry::storage_rows(*storage),
        groups@[6].title@ == "Storage sources consulted"@,
        named_views(groups@[6].rows@) == crate::telemetry::storage_source_rows(*storage),
        groups@[7].title@ == "Ports and connectivity"@,
        usb.probe_error matches Some(e) ==> named_views(groups@[7].rows@) == crate::connectivity::usb_error_rows(
            e@,
            *radios,
            physical_ports@,
        ),
        usb.probe_error is None ==> exists|speeds: Seq<char>|
            crate::connectivity::speeds_described(*usb, speeds) && named_views(groups@[7].rows@)
                == crate::connectivity::usb_rows(*usb, *radios, physical_ports@, speeds),
        groups@[8].title@ == "USB sources consulted"@,
        named_views(groups@[8].rows@) == crate::connectivity::usb_source_rows(*usb),
        groups@[9].title@ == "Radio sources consulted"@,
        named_views(groups@[9].rows@) == crate::connectivity::display_radio_source_rows(radios.sources@, true),
        groups@[10].title@ == "Display panel"@,
        named_views(groups@[10].rows@) == crate::connectivity::display_rows(*radios),
        groups@[11].title@ == "Display sources consulted"@,
        named_views(groups@[11].rows@) == crate::connectivity::display_radio_source_rows(radios.sources@, false),
        groups@[12].title@ == "Cameras and microphones"@,
        capture.probe_error matches Some(e) ==> named_views(groups@[12].rows@)
            == crate::connectivity::capture_error_rows(e@),
        capture.probe_error is None ==> exists|q: Seq<Seq<char>>|
            crate::connectivity::camera_classes(*capture, q) && named_views(groups@[12].rows@)
                == crate::connectivity::capture_rows(*capture, crate::text::join(q, "; "@)),
        groups@[13].title@ == "Capture sources consulted"@,
        named_views(groups@[13].rows@) == crate::connectivity::capture_source_rows(*capture),
        groups@[14].title@ == "Benchmarks"@,
        named_views(groups@[14].rows@) == seq![
            ("Processor sustained clock"@, bench[0]@),
            ("Memory pattern check"@, bench[1]@),
            ("Sequential read"@, bench[2]@),
            ("Random read"@, bench[3]@),
            ("Write benchmark"@, bench[4]@),
        ],
{
    let mut groups: Vec<TelemetryGroup> = Vec::new();
    groups.push(crate::power_identity::battery_group(battery));
    groups.push(crate::power_identity::battery_source_group(battery));
    groups.push(crate::power_identity::processor_group(identity));
    groups.push(crate::power_identity::memory_group(identity));
    groups.push(crate::power_identity::identity_source_group(identity));
    groups.push(crate::telemetry::storage_group(storage));
    groups.push(crate::telemetry::storage_source_group(storage));
    groups.push(crate::connectivity::usb_group(usb, radios, physical_ports));
    groups.push(crate::connectivity::usb_source_group(usb));
    groups.push(crate::connectivity::radio_source_group(radios));
    groups.push(crate::connectivity::display_group(radios));
    groups.push(crate::connectivity::display_source_group(radios));
    groups.push(crate::connectivity::capture_group(capture));
    groups.push(crate::connectivity::capture_source_group(capture));
    groups.push(crate::telemetry::bench_group(bench[0], bench[1], bench[2], bench[3], bench[4]));
    groups
}

/// The stages reported to the operator while Advance scan runs, in order.
pub const STAGES: [&'static str; 11] = [
    "Preparing advance scan",
    "Reading battery and power",
    "Reading processor and cache",
    "Reading memory",
    "Reading storage identity and health",
    "Reading ports and connectivity",
    "Reading display panel",
    "Reading cameras and microphones",
    "Running permitted benchmarks",
    "Scoring coverage",
    "Preparing Report D",
];

/// How far through the run a stage is: its share of the ten steps after
/// the first, in whole percent.
pub fn stage_percent(index: usize) -> (p: u8)
    requires
        index < 11,
    ensures
        p == index * 10,
{
    (index * 10) as u8
}

} // verus!
