//! Advance scan: the order in which subsystems are visited and announced,
//! and the assembly of Report D once every probe has answered.
//!
//! The scan is a loop that alternates collection (done by the caller) with
//! decisions (made here). `advance_step` says, for the current state and
//! what just happened, which stage to announce, with which percent and
//! detail, and which subsystem to read next. `build_customer_scan` turns
//! the probes' answers into the Report D payload and asks the grading
//! engine for the verdict.

use vstd::prelude::*;
use crate::battery_probe::BatteryProbe;
use crate::capture_probe::CaptureProbe;
use crate::cpu_memory::CpuMemoryProbe;
use crate::diagnostics::{
    battery_evidence, battery_evidence_ok, boundary_note, boundary_text, coverage_domains,
    coverage_row_of, coverage_rows, coverage_rows_spec, gap_lines, method_rows, method_rows_spec,
    not_assessable, outcome_message, outcome_text, rubric_rows, rubric_rows_spec, telemetry_groups,
    temporary_files_note, CustomerAdvanceScan, STAGES,
};
use crate::customer::named_views;
use crate::display_radio::DisplayRadioProbe;
use crate::hardware_diagnostics_v1::{
    evaluate, percent, sum_assessed, sum_awarded, sum_gap, sum_scope, verdict, CoverageSummary,
    CriticalFault, DeviceForm, DiagnosticDomain, DomainApplicability, DomainEvidence,
    ElevationState, GRADING_ENGINE_NAME, GRADING_RUBRIC, SCHEMA_VERSION,
};
use crate::hardware_inventory_v1::Confidence;
use crate::numtext::dec;
use crate::progress::{ports_gap, ports_gap_text};
use crate::storage_health::{faults_of, scoring_spec, StorageProbe};
use crate::telemetry::{storage_gap, storage_gap_text};
use crate::text::{append_str, join, join_strings, owned, string_of, string_views};
use crate::usb_topology::{UsbProbe, UsbSource};

verus! {

/// The subsystem the caller reads after announcing a step.
#[derive(Debug, Clone, Copy, PartialEq, Eq, Structural)]
pub enum AdvanceWork {
    /// Nothing to read: the step only reports.
    Nothing,
    Battery,
    /// Processor identity, cache and memory modules.
    Identity,
    /// Report the memory modules already read with the processor.
    MemoryFromIdentity,
    Storage,
    Usb,
    Radios,
    /// Report the panel from the radios probe, which also reads EDID.
    DisplayFromRadios,
    Capture,
    Benchmarks,
    /// Score coverage and build Report D.
    Score,
}

/// Where an Advance scan stands.
#[derive(Debug, Clone, Copy, PartialEq, Eq, Structural)]
pub struct AdvanceState {
    /// The next step to announce; `ADVANCE_STEPS` once the scan is over.
    pub step: u8,
    pub benchmarks_consented: bool,
    /// The operator cancelled: every collector still to run is handed a
    /// cancelled token and answers as cancelled.
    pub cancelled: bool,
    /// Known once scoring has run.
    pub grade_withheld: bool,
}

/// What happened since the last step.
#[derive(Debug, Clone, Copy, PartialEq, Eq, Structural)]
pub enum AdvanceEvent {
    /// The work of the previous step is done.
    Proceed,
    /// The operator cancelled the scan.
    Cancel,
    /// Scoring finished, and the grade was or was not withheld.
    Scored { grade_withheld: bool },
}

/// What the caller does next.
#[derive(Debug, Clone, Copy, PartialEq, Eq)]
pub enum AdvanceAction {
    /// Report `(percent, index, stage, detail)` to the operator, then do `work`,
    /// handing collectors a cancelled token when `cancelled` holds.
    Report { percent: u8, index: u8, stage: &'static str, detail: &'static str, work: AdvanceWork, cancelled: bool },
    /// Every stage has been announced; Report D is ready.
    Finished,
}

/// The number of announced steps: eleven stages, the port stage twice.
pub const ADVANCE_STEPS: u8 = 12;

/// The state before anything was announced.
pub open spec fn advance_start_spec(benchmarks_consented: bool) -> AdvanceState {
    AdvanceState { step: 0, benchmarks_consented, cancelled: false, grade_withheld: false }
}

/// The scan starts at the first step with nothing cancelled or scored.
pub fn advance_start(benchmarks_consented: bool) -> (s: AdvanceState)
    ensures
        s == advance_start_spec(benchmarks_consented),
{
    AdvanceState { step: 0, benchmarks_consented, cancelled: false, grade_withheld: false }
}

/// The stage index announced at each step.
pub open spec fn step_index(step: int) -> int {
    if step <= 5 {
        step
    } else {
        step - 1
    }
}

pub open spec fn step_work(step: int) -> AdvanceWork {
    if step == 1 {
        AdvanceWork::Battery
    } else if step == 2 {
        AdvanceWork::Identity
    } else if step == 3 {
        AdvanceWork::MemoryFromIdentity
    } else if step == 4 {
        AdvanceWork::Storage
    } else if step == 5 {
        AdvanceWork::Usb
    } else if step == 6 {
        AdvanceWork::Radios
    } else if step == 7 {
        AdvanceWork::DisplayFromRadios
    } else if step == 8 {
        AdvanceWork::Capture
    } else if step == 9 {
        AdvanceWork::Benchmarks
    } else if step == 10 {
        AdvanceWork::Score
    } else {
        AdvanceWork::Nothing
    }
}

pub open spec fn step_detail(step: int, benchmarks_consented: bool, grade_withheld: bool) -> Seq<char> {
    if step == 0 {
        "Checking the Advance scan boundary and permissions."@
    } else if step == 1 {
        "Asking Windows and the battery firmware for capacity."@
    } else if step == 2 {
        "Reading processor identity and cache."@
    } else if step == 3 {
        "Reading memory modules and installed capacity."@
    } else if step == 4 {
        "Asking Windows for disk identity and SMART. Nothing is written, erased or trimmed."@
    } else if step == 5 {
        "Walking USB controllers, hubs and attached devices."@
    } else if step == 6 {
        "Reading Wi-Fi, Bluetooth and Ethernet. MAC addresses are not collected."@
    } else if step == 7 {
        "Reading panel identity from EDID. Native resolution is the preferred timing, not the current desktop mode."@
    } else if step == 8 {
        "Enumerating cameras and microphones. No image or audio is captured."@
    } else if step == 9 {
        if benchmarks_consented {
            "Running consented CPU, memory and storage workloads. Package temperature is not collected."@
        } else {
            "Benchmarks were not permitted, so none were run."@
        }
    } else if step == 10 {
        "Scoring only the areas that were actually assessed, including technician attestations."@
    } else if grade_withheld {
        "Report D is ready. No grade was issued."@
    } else {
        "Report D is ready."@
    }
}

/// The stage names, in order.
pub open spec fn stage_name(index: int) -> Seq<char> {
    STAGES@[index]@
}

/// One step of the scan: the event updates what is known (cancellation,
/// the withheld grade), then the next step is announced, or the scan is over.
pub open spec fn advance_step_spec(state: AdvanceState, event: AdvanceEvent) -> (AdvanceState, AdvanceActionView) {
    let cancelled = state.cancelled || event == AdvanceEvent::Cancel;
    let withheld = match event {
        AdvanceEvent::Scored { grade_withheld } => grade_withheld,
        _ => state.grade_withheld,
    };
    if state.step >= ADVANCE_STEPS {
        (AdvanceState { cancelled, grade_withheld: withheld, ..state }, AdvanceActionView::Finished)
    } else {
        let index = step_index(state.step as int);
        (
            AdvanceState { step: (state.step + 1) as u8, cancelled, grade_withheld: withheld, ..state },
            AdvanceActionView::Report {
                percent: 10 * index,
                index,
                stage: stage_name(index),
                detail: step_detail(state.step as int, state.benchmarks_consented, withheld),
                work: step_work(state.step as int),
                cancelled,
            },
        )
    }
}

/// An action with its texts taken as character sequences.
pub enum AdvanceActionView {
    Report { percent: int, index: int, stage: Seq<char>, detail: Seq<char>, work: AdvanceWork, cancelled: bool },
    Finished,
}

pub open spec fn action_view(a: AdvanceAction) -> AdvanceActionView {
    match a {
        AdvanceAction::Report { percent, index, stage, detail, work, cancelled } => AdvanceActionView::Report {
            percent: percent as int,
            index: index as int,
            stage: stage@,
            detail: detail@,
            work,
            cancelled,
        },
        AdvanceAction::Finished => AdvanceActionView::Finished,
    }
}

fn step_detail_of(step: u8, benchmarks_consented: bool, grade_withheld: bool) -> (d: &'static str)
    requires
        step < ADVANCE_STEPS,
    ensures
        d@ == step_detail(step as int, benchmarks_consented, grade_withheld),
{
    match step {
        0 => "Checking the Advance scan boundary and permissions.",
        1 => "Asking Windows and the battery firmware for capacity.",
        2 => "Reading processor identity and cache.",
        3 => "Reading memory modules and installed capacity.",
        4 => "Asking Windows for disk identity and SMART. Nothing is written, erased or trimmed.",
        5 => "Walking USB controllers, hubs and attached devices.",
        6 => "Reading Wi-Fi, Bluetooth and Ethernet. MAC addresses are not collected.",
        7 => "Reading panel identity from EDID. Native resolution is the preferred timing, not the current desktop mode.",
        8 => "Enumerating cameras and microphones. No image or audio is captured.",
        9 => if benchmarks_consented {
            "Running consented CPU, memory and storage workloads. Package temperature is not collected."
        } else {
            "Benchmarks were not permitted, so none were run."
        },
        10 => "Scoring only the areas that were actually assessed, including technician attestations.",
        _ => if grade_withheld {
            "Report D is ready. No grade was issued."
        } else {
            "Report D is ready."
        },
    }
}

fn step_work_of(step: u8) -> (w: AdvanceWork)
    ensures
        w == step_work(step as int),
{
    match step {
        1 => AdvanceWork::Battery,
        2 => AdvanceWork::Identity,
        3 => AdvanceWork::MemoryFromIdentity,
        4 => AdvanceWork::Storage,
        5 => AdvanceWork::Usb,
        6 => AdvanceWork::Radios,
        7 => AdvanceWork::DisplayFromRadios,
        8 => AdvanceWork::Capture,
        9 => AdvanceWork::Benchmarks,
        10 => AdvanceWork::Score,
        _ => AdvanceWork::Nothing,
    }
}

/// Decide the next announcement of an Advance scan.
pub fn advance_step(state: &AdvanceState, event: AdvanceEvent) -> (r: (AdvanceState, AdvanceAction))
    ensures
        r.0 == advance_step_spec(*state, event).0,
        action_view(r.1) == advance_step_spec(*state, event).1,
{
    let cancelled = state.cancelled || match event {
        AdvanceEvent::Cancel => true,
        _ => false,
    };
    let withheld = match event {
        AdvanceEvent::Scored { grade_withheld } => grade_withheld,
        _ => state.grade_withheld,
    };
    if state.step >= ADVANCE_STEPS {
        return (AdvanceState { cancelled, grade_withheld: withheld, ..*state }, AdvanceAction::Finished);
    }
    let index: u8 = if state.step <= 5 { state.step } else { state.step - 1 };
    let action = AdvanceAction::Report {
        percent: 10 * index,
        index,
        stage: STAGES[index as usize],
        detail: step_detail_of(state.step, state.benchmarks_consented, withheld),
        work: step_work_of(state.step),
        cancelled,
    };
    (AdvanceState { step: state.step + 1, cancelled, grade_withheld: withheld, ..*state }, action)
}


// ---- a whole run ----

/// The state after `k` steps of an uninterrupted scan.
pub open spec fn run_state(benchmarks_consented: bool, k: nat) -> AdvanceState
    decreases k,
{
    if k == 0 {
        advance_start_spec(benchmarks_consented)
    } else {
        advance_step_spec(run_state(benchmarks_consented, (k - 1) as nat), AdvanceEvent::Proceed).0
    }
}

/// The action of the `k`-th step of an uninterrupted scan.
pub open spec fn run_action(benchmarks_consented: bool, k: nat) -> AdvanceActionView {
    advance_step_spec(run_state(benchmarks_consented, k), AdvanceEvent::Proceed).1
}

proof fn lemma_run_state(c: bool, k: nat)
    requires
        k <= ADVANCE_STEPS,
    ensures
        run_state(c, k).step == k,
        run_state(c, k).benchmarks_consented == c,
        !run_state(c, k).cancelled,
        !run_state(c, k).grade_withheld,
    decreases k,
{
    if k > 0 {
        lemma_run_state(c, (k - 1) as nat);
    }
}

proof fn lemma_details_nonempty(step: int, c: bool, w: bool)
    requires
        0 <= step < ADVANCE_STEPS,
    ensures
        step_detail(step, c, w).len() > 0,
{
    reveal_strlit("Checking the Advance scan boundary and permissions.");
    reveal_strlit("Asking Windows and the battery firmware for capacity.");
    reveal_strlit("Reading processor identity and cache.");
    reveal_strlit("Reading memory modules and installed capacity.");
    reveal_strlit("Asking Windows for disk identity and SMART. Nothing is written, erased or trimmed.");
    reveal_strlit("Walking USB controllers, hubs and attached devices.");
    reveal_strlit("Reading Wi-Fi, Bluetooth and Ethernet. MAC addresses are not collected.");
    reveal_strlit("Reading panel identity from EDID. Native resolution is the preferred timing, not the current desktop mode.");
    reveal_strlit("Enumerating cameras and microphones. No image or audio is captured.");
    reveal_strlit("Running consented CPU, memory and storage workloads. Package temperature is not collected.");
    reveal_strlit("Benchmarks were not permitted, so none were run.");
    reveal_strlit("Scoring only the areas that were actually assessed, including technician attestations.");
    reveal_strlit("Report D is ready. No grade was issued.");
    reveal_strlit("Report D is ready.");
}

/// Step `k` announces its stage: the stage index of step `k`, by name, at
/// ten percent per index, with a detail.
pub open spec fn announces(a: AdvanceActionView, k: int) -> bool {
    match a {
        AdvanceActionView::Report { percent, index, stage, detail, .. } => index == step_index(k) && percent == 10
            * index && stage == stage_name(index) && detail.len() > 0,
        AdvanceActionView::Finished => false,
    }
}

/// Some step announces stage `i`.
pub open spec fn stage_announced(i: int) -> bool {
    exists|k: int| 0 <= k < ADVANCE_STEPS && #[trigger] step_index(k) == i
}

/// An uninterrupted Advance scan announces twelve steps and then finishes.
/// Each announces a stage by its name, at ten percent per stage index, with
/// a detail; the indices never go back, every one of the eleven stages is
/// announced, the run starts at 0% and its last announcement is the final
/// stage at 100%.
pub proof fn advance_run_visits_every_stage_in_order(benchmarks_consented: bool)
    ensures
        forall|k: int| 0 <= k < ADVANCE_STEPS ==> announces(#[trigger] run_action(benchmarks_consented, k as nat), k),
        forall|k1: int, k2: int| 0 <= k1 <= k2 < ADVANCE_STEPS ==> step_index(k1) <= step_index(k2),
        forall|i: int| 0 <= i < 11 ==> #[trigger] stage_announced(i),
        step_index(0) == 0,
        step_index(11) == 10,
        run_action(benchmarks_consented, 12) == AdvanceActionView::Finished,
{
    assert forall|k: int| 0 <= k < ADVANCE_STEPS implies announces(#[trigger] run_action(benchmarks_consented, k as nat), k) by {
        lemma_run_state(benchmarks_consented, k as nat);
        lemma_details_nonempty(k, benchmarks_consented, false);
    }
    assert forall|i: int| 0 <= i < 11 implies #[trigger] stage_announced(i) by {
        if i <= 5 {
            assert(step_index(i) == i);
        } else {
            assert(step_index(i + 1) == i);
        }
    }
    lemma_run_state(benchmarks_consented, 12);
}

// ---------------------------------------------------------------------------
// Domain evidence gathered by an Advance scan.
// ---------------------------------------------------------------------------

/// What the technician recorded for physical port insertion.
#[derive(Debug, Clone, Copy, PartialEq, Eq, Structural)]
pub enum PhysicalPortAttestation {
    NotAttempted,
    AllPassed,
    Partial,
    AnyFailed,
}

/// The technician's interactive checks, as points: what the attested
/// physical-port and screen/keyboard/peripheral checks awarded out of what
/// they assessed.
#[derive(Debug, Clone, Copy, PartialEq, Eq, Structural)]
pub struct InteractiveAttestations {
    pub physical_ports: PhysicalPortAttestation,
    pub port_awarded: u32,
    pub port_assessed: u32,
    pub screen_awarded: u32,
    pub screen_assessed: u32,
}

/// The ports rubric's points for each signal read without a technician.
#[derive(Debug, Clone, Copy, PartialEq, Eq, Structural)]
pub struct RadioPoints {
    pub usb_topology: u32,
    pub wifi: u32,
    pub bluetooth: u32,
    pub ethernet: u32,
}

/// Evidence that names a domain it could not assess, and why.
pub open spec fn gap_evidence(e: DomainEvidence, domain: DiagnosticDomain, note: Seq<char>) -> bool {
    &&& e.domain == domain
    &&& e.applicability == DomainApplicability::Assessable
    &&& e.awarded == 0
    &&& e.assessed == 0
    &&& e.confidence == Confidence::Unknown
    &&& e.note matches Some(n) && n@ == note
}

/// Evidence measured with high confidence: `assessed` capped at the domain's
/// weight and `awarded` at what was assessed, with a note.
pub open spec fn measured_evidence(
    e: DomainEvidence,
    domain: DiagnosticDomain,
    awarded: int,
    assessed: int,
    note: Seq<char>,
) -> bool {
    let cap = if assessed <= domain.points() { assessed } else { domain.points() as int };
    &&& e.domain == domain
    &&& e.applicability == DomainApplicability::Assessable
    &&& e.assessed == cap
    &&& e.awarded == (if awarded <= cap { awarded } else { cap })
    &&& e.confidence == Confidence::High
    &&& e.note matches Some(n) && n@ == note
}

pub open spec fn storage_note() -> Seq<char> {
    "Storage SMART was read. Power-on hours and wear are printed; they are not scored in CG-1.0."@
}

/// Storage: the SMART points where a scoring drive was read, else the gap.
pub open spec fn storage_evidence_ok(e: DomainEvidence, s: StorageProbe, points: Option<u32>) -> bool {
    match points {
        Some(a) if scoring_spec(s.drives@).len() > 0 => measured_evidence(
            e,
            DiagnosticDomain::StorageHealth,
            a as int,
            20,
            storage_note(),
        ),
        _ => gap_evidence(e, DiagnosticDomain::StorageHealth, storage_gap_text(s)),
    }
}

/// The storage domain from `points`, the SMART points of the worst scoring
/// drive; the gap when no drive is eligible for scoring or no points were
/// given.
pub fn storage_evidence(s: &StorageProbe, points: Option<u32>) -> (e: DomainEvidence)
    ensures
        storage_evidence_ok(e, *s, points),
        e.consistent(),
{
    let domain = DiagnosticDomain::StorageHealth;
    let scorable = s.scoring_drives().len() > 0;
    match points {
        Some(a) if scorable => {
            let mut e = DomainEvidence::measured(domain, a, domain.weight(), Confidence::High);
            e.note = Some(owned("Storage SMART was read. Power-on hours and wear are printed; they are not scored in CG-1.0."));
            e
        },
        _ => DomainEvidence::not_assessable(domain, storage_gap(s)),
    }
}

pub open spec fn usb_seen(u: UsbProbe) -> bool {
    u.probe_error is None && exists|i: int|
        0 <= i < u.sources@.len() && (#[trigger] u.sources@[i]).source == UsbSource::Controller
            && u.sources@[i].outcome == crate::usb_topology::SourceOutcome::Reported
}

pub open spec fn wifi_seen(r: DisplayRadioProbe) -> bool {
    match r.wifi {
        Some(w) => w.reporting(),
        None => false,
    }
}

pub open spec fn ethernet_seen(r: DisplayRadioProbe) -> bool {
    exists|i: int| 0 <= i < r.ethernet@.len() && (#[trigger] r.ethernet@[i]).state is Some
}

/// The topology share of the ports domain.
pub open spec fn topology_points(u: UsbProbe, r: DisplayRadioProbe, p: RadioPoints) -> int {
    (if usb_seen(u) { p.usb_topology as int } else { 0 }) + (if wifi_seen(r) { p.wifi as int } else { 0 })
        + (if r.bluetooth is Some { p.bluetooth as int } else { 0 }) + (if ethernet_seen(r) {
        p.ethernet as int
    } else {
        0
    })
}

pub open spec fn attestation_text(a: PhysicalPortAttestation) -> Seq<char> {
    match a {
        PhysicalPortAttestation::NotAttempted => "physical insertion not attempted"@,
        PhysicalPortAttestation::AllPassed => "all attempted ports passed"@,
        PhysicalPortAttestation::Partial => "some attempted ports passed"@,
        PhysicalPortAttestation::AnyFailed => "an attempted port failed"@,
    }
}

pub open spec fn opt_part(b: bool, text: Seq<char>) -> Seq<Seq<char>> {
    if b {
        seq![text]
    } else {
        Seq::empty()
    }
}

/// The signals seen, in print order, then the attestation.
pub open spec fn port_parts(u: UsbProbe, r: DisplayRadioProbe, a: PhysicalPortAttestation) -> Seq<Seq<char>> {
    opt_part(usb_seen(u), "USB controller topology enumerated"@) + opt_part(wifi_seen(r), "Wi-Fi adapter reporting"@)
        + opt_part(r.bluetooth is Some, "Bluetooth radio present"@) + opt_part(
        ethernet_seen(r),
        "Ethernet link state readable"@,
    ) + seq![attestation_text(a)]
}

pub open spec fn ports_note_text(
    u: UsbProbe,
    r: DisplayRadioProbe,
    a: PhysicalPortAttestation,
    awarded: nat,
    assessed: nat,
) -> Seq<char> {
    join(port_parts(u, r, a), "; "@) + ". "@ + dec(awarded) + " of "@ + dec(assessed)
        + " assessed ports points awarded ("@ + dec(awarded) + " of 10). MAC addresses were not collected."@
}

fn push_part(parts: &mut Vec<String>, b: bool, text: &str)
    ensures
        string_views(final(parts)@) == string_views(old(parts)@) + opt_part(b, text@),
{
    if b {
        parts.push(owned(text));
        assert(string_views(final(parts)@) =~= string_views(old(parts)@) + opt_part(b, text@));
    } else {
        assert(string_views(old(parts)@) + opt_part(b, text@) =~= string_views(old(parts)@));
    }
}

fn attestation_str(a: PhysicalPortAttestation) -> (s: &'static str)
    ensures
        s@ == attestation_text(a),
{
    match a {
        PhysicalPortAttestation::NotAttempted => "physical insertion not attempted",
        PhysicalPortAttestation::AllPassed => "all attempted ports passed",
        PhysicalPortAttestation::Partial => "some attempted ports passed",
        PhysicalPortAttestation::AnyFailed => "an attempted port failed",
    }
}

/// The note printed beside the ports score: which signals were seen, what
/// the technician attested, and the points.
pub fn ports_note(
    u: &UsbProbe,
    r: &DisplayRadioProbe,
    a: PhysicalPortAttestation,
    awarded: u32,
    assessed: u32,
) -> (n: String)
    ensures
        n@ == ports_note_text(*u, *r, a, awarded as nat, assessed as nat),
{
    let mut parts: Vec<String> = Vec::new();
    assert(string_views(parts@) =~= Seq::<Seq<char>>::empty());
    push_part(&mut parts, u.topology_enumerated(), "USB controller topology enumerated");
    push_part(&mut parts, r.wifi_reporting(), "Wi-Fi adapter reporting");
    push_part(&mut parts, r.bluetooth_present(), "Bluetooth radio present");
    push_part(&mut parts, r.ethernet_link_readable(), "Ethernet link state readable");
    push_part(&mut parts, true, attestation_str(a));
    assert(string_views(parts@) =~= port_parts(*u, *r, a));
    let joined = join_strings(&parts, "; ");
    let mut out: Vec<char> = crate::text::chars_of(joined.as_str());
    append_str(&mut out, ". ");
    crate::numtext::push_dec(&mut out, awarded as u64);
    append_str(&mut out, " of ");
    crate::numtext::push_dec(&mut out, assessed as u64);
    append_str(&mut out, " assessed ports points awarded (");
    crate::numtext::push_dec(&mut out, awarded as u64);
    append_str(&mut out, " of 10). MAC addresses were not collected.");
    string_of(&out)
}

/// Ports: the topology signals plus the attested insertions; the gap when
/// neither scored anything.
pub open spec fn ports_evidence_ok(
    e: DomainEvidence,
    u: UsbProbe,
    r: DisplayRadioProbe,
    i: InteractiveAttestations,
    p: RadioPoints,
) -> bool {
    let topology = topology_points(u, r, p);
    let awarded = topology + i.port_awarded;
    let assessed = topology + i.port_assessed;
    if assessed == 0 {
        gap_evidence(e, DiagnosticDomain::PortsAndConnectivity, ports_gap_text(u, r))
    } else {
        measured_evidence(
            e,
            DiagnosticDomain::PortsAndConnectivity,
            awarded,
            assessed,
            ports_note_text(u, r, i.physical_ports, awarded as nat, assessed as nat),
        )
    }
}

pub open spec fn ports_sums_fit(i: InteractiveAttestations, p: RadioPoints) -> bool {
    &&& p.usb_topology + p.wifi + p.bluetooth + p.ethernet + i.port_awarded <= u32::MAX
    &&& p.usb_topology + p.wifi + p.bluetooth + p.ethernet + i.port_assessed <= u32::MAX
}

/// The ports domain from the topology signals and the attested insertions.
pub fn ports_evidence(
    u: &UsbProbe,
    r: &DisplayRadioProbe,
    i: InteractiveAttestations,
    p: RadioPoints,
) -> (e: DomainEvidence)
    requires
        ports_sums_fit(i, p),
    ensures
        ports_evidence_ok(e, *u, *r, i, p),
        e.consistent(),
{
    let domain = DiagnosticDomain::PortsAndConnectivity;
    let usb = if u.topology_enumerated() { p.usb_topology } else { 0 };
    let wifi = if r.wifi_reporting() { p.wifi } else { 0 };
    let bluetooth = if r.bluetooth_present() { p.bluetooth } else { 0 };
    let ethernet = if r.ethernet_link_readable() { p.ethernet } else { 0 };
    let topology = usb + wifi + bluetooth + ethernet;
    let awarded = topology + i.port_awarded;
    let assessed = topology + i.port_assessed;
    if assessed == 0 {
        return DomainEvidence::not_assessable(domain, ports_gap(u, r));
    }
    let mut e = DomainEvidence::measured(domain, awarded, assessed, Confidence::High);
    e.note = Some(ports_note(u, r, i.physical_ports, awarded, assessed));
    e
}

pub open spec fn screen_note() -> Seq<char> {
    "Screen, keyboard and peripheral points are operator-attested. Live camera and microphone capture is not part of this scan."@
}

pub open spec fn screen_evidence_ok(e: DomainEvidence, i: InteractiveAttestations) -> bool {
    if i.screen_assessed == 0 {
        gap_evidence(e, DiagnosticDomain::ScreenAndPeripherals, "Interactive technician checks were not attempted in this scan"@)
    } else {
        measured_evidence(
            e,
            DiagnosticDomain::ScreenAndPeripherals,
            i.screen_awarded as int,
            i.screen_assessed as int,
            screen_note(),
        )
    }
}

/// The screen, keyboard and peripherals domain: only what the technician attested.
pub fn screen_evidence(i: InteractiveAttestations) -> (e: DomainEvidence)
    ensures
        screen_evidence_ok(e, i),
        e.consistent(),
{
    let domain = DiagnosticDomain::ScreenAndPeripherals;
    if i.screen_assessed == 0 {
        return DomainEvidence::not_assessable(domain, "Interactive technician checks were not attempted in this scan");
    }
    let mut e = DomainEvidence::measured(domain, i.screen_awarded, i.screen_assessed, Confidence::High);
    e.note = Some(owned("Screen, keyboard and peripheral points are operator-attested. Live camera and microphone capture is not part of this scan."));
    e
}


// ---- processor and memory ----

/// The rubric's points for what the processor and memory stages read
/// without a timed workload.
#[derive(Debug, Clone, Copy, PartialEq, Eq, Structural)]
pub struct IdentityPoints {
    /// For a complete processor identity (name, cores and a cache size).
    pub processor_identity: u32,
    /// For a complete memory inventory (slots, a capacity and a speed).
    pub memory_inventory: u32,
    /// For a memory pattern spot check that passed.
    pub memory_pattern: u32,
}

/// Points the sustained-clock workload can award.
pub const CLOCK_POINTS: u32 = 16;
/// Points the memory pattern spot check assesses.
pub const PATTERN_POINTS: u32 = 7;
/// Points the memory bandwidth workload assesses.
pub const BANDWIDTH_POINTS: u32 = 3;

pub open spec fn processor_identified(id: CpuMemoryProbe) -> bool {
    match id.processor {
        Some(p) => p.name is Some && p.cores is Some && (p.l2_kb is Some || p.l3_kb is Some),
        None => false,
    }
}

/// Processor: the identity points, plus the clock points when a consented
/// workload measured the clock (`clock_points`, scored from the timings).
pub open spec fn processor_evidence_ok(
    e: DomainEvidence,
    id: CpuMemoryProbe,
    clock_points: Option<u32>,
    pts: IdentityPoints,
) -> bool {
    let identity = if processor_identified(id) { pts.processor_identity as int } else { 0 };
    let assessed = identity + if clock_points is Some { CLOCK_POINTS as int } else { 0 };
    let awarded = identity + match clock_points {
        Some(c) => c as int,
        None => 0,
    };
    if assessed == 0 {
        gap_evidence(
            e,
            DiagnosticDomain::ProcessorAndThermal,
            if id.probe_error is Some {
                "The processor identity probe could not run on this PC"@
            } else {
                "Processor identity was not collected in this scan"@
            },
        )
    } else {
        measured_evidence(
            e,
            DiagnosticDomain::ProcessorAndThermal,
            awarded,
            assessed,
            "Package temperature is not collected. Clock points are awarded only after a consented workload."@,
        )
    }
}

pub open spec fn points_fit(clock_points: Option<u32>, bandwidth_points: Option<u32>, pts: IdentityPoints) -> bool {
    &&& pts.processor_identity + CLOCK_POINTS + match clock_points {
        Some(c) => c as int,
        None => 0,
    } <= u32::MAX
    &&& pts.memory_inventory + pts.memory_pattern + PATTERN_POINTS + BANDWIDTH_POINTS + match bandwidth_points {
        Some(b) => b as int,
        None => 0,
    } <= u32::MAX
}

/// The processor domain.
pub fn processor_evidence(id: &CpuMemoryProbe, clock_points: Option<u32>, pts: IdentityPoints) -> (e: DomainEvidence)
    requires
        points_fit(clock_points, None, pts),
    ensures
        processor_evidence_ok(e, *id, clock_points, pts),
        e.consistent(),
{
    let domain = DiagnosticDomain::ProcessorAndThermal;
    let complete = match &id.processor {
        Some(p) => p.identity_complete(),
        None => false,
    };
    let identity: u32 = if complete { pts.processor_identity } else { 0 };
    let assessed = identity + match clock_points {
        Some(_) => CLOCK_POINTS,
        None => 0,
    };
    let awarded = identity + match clock_points {
        Some(c) => c,
        None => 0,
    };
    if assessed == 0 {
        return DomainEvidence::not_assessable(
            domain,
            if id.probe_error.is_some() {
                "The processor identity probe could not run on this PC"
            } else {
                "Processor identity was not collected in this scan"
            },
        );
    }
    let mut e = DomainEvidence::measured(domain, awarded, assessed, Confidence::High);
    e.note = Some(owned("Package temperature is not collected. Clock points are awarded only after a consented workload."));
    e
}

/// Memory: a failed pattern spot check scores the whole domain 0; else the
/// inventory, pattern and bandwidth points of what was read or run
/// (`bandwidth_points`, scored from the timings, is none when the
/// bandwidth workload did not run).
pub open spec fn memory_evidence_ok(
    e: DomainEvidence,
    id: CpuMemoryProbe,
    pattern_passed: Option<bool>,
    bandwidth_points: Option<u32>,
    pts: IdentityPoints,
) -> bool {
    if pattern_passed == Some(false) {
        measured_evidence(
            e,
            DiagnosticDomain::MemoryIntegrity,
            0,
            15,
            "Memory pattern spot check failed. The domain is scored 0 because that is evidence held."@,
        )
    } else {
        let inventory = if crate::cpu_memory::inventory_complete_spec(id) { pts.memory_inventory as int } else { 0 };
        let assessed = inventory + (if pattern_passed is Some { PATTERN_POINTS as int } else { 0 }) + (
        if bandwidth_points is Some {
            BANDWIDTH_POINTS as int
        } else {
            0
        });
        let awarded = inventory + (if pattern_passed == Some(true) { pts.memory_pattern as int } else { 0 }) + (
        match bandwidth_points {
            Some(b) => b as int,
            None => 0,
        });
        if assessed == 0 {
            gap_evidence(
                e,
                DiagnosticDomain::MemoryIntegrity,
                if id.probe_error is Some {
                    "The memory inventory probe could not run on this PC"@
                } else {
                    "Memory inventory was not collected in this scan"@
                },
            )
        } else {
            measured_evidence(
                e,
                DiagnosticDomain::MemoryIntegrity,
                awarded,
                assessed,
                "This is a user-mode pattern spot check, not full-coverage memory testing."@,
            )
        }
    }
}

/// The memory domain.
pub fn memory_evidence(
    id: &CpuMemoryProbe,
    pattern_passed: Option<bool>,
    bandwidth_points: Option<u32>,
    pts: IdentityPoints,
) -> (e: DomainEvidence)
    requires
        points_fit(None, bandwidth_points, pts),
    ensures
        memory_evidence_ok(e, *id, pattern_passed, bandwidth_points, pts),
        e.consistent(),
{
    let domain = DiagnosticDomain::MemoryIntegrity;
    if let Some(false) = pattern_passed {
        let mut e = DomainEvidence::measured(domain, 0, domain.weight(), Confidence::High);
        e.note = Some(owned("Memory pattern spot check failed. The domain is scored 0 because that is evidence held."));
        return e;
    }
    let inventory: u32 = if id.inventory_complete() { pts.memory_inventory } else { 0 };
    let pattern_assessed: u32 = if pattern_passed.is_some() { PATTERN_POINTS } else { 0 };
    let pattern_awarded: u32 = if let Some(true) = pattern_passed { pts.memory_pattern } else { 0 };
    let (bandwidth_assessed, bandwidth_awarded): (u32, u32) = match bandwidth_points {
        Some(b) => (BANDWIDTH_POINTS, b),
        None => (0, 0),
    };
    let assessed = inventory + pattern_assessed + bandwidth_assessed;
    let awarded = inventory + pattern_awarded + bandwidth_awarded;
    if assessed == 0 {
        return DomainEvidence::not_assessable(
            domain,
            if id.probe_error.is_some() {
                "The memory inventory probe could not run on this PC"
            } else {
                "Memory inventory was not collected in this scan"
            },
        );
    }
    let mut e = DomainEvidence::measured(domain, awarded, assessed, Confidence::High);
    e.note = Some(owned("This is a user-mode pattern spot check, not full-coverage memory testing."));
    e
}

// ---------------------------------------------------------------------------
// Report D.
// ---------------------------------------------------------------------------

/// What the technician's port attestation prints as.
pub open spec fn attestation_label(a: PhysicalPortAttestation) -> Seq<char> {
    match a {
        PhysicalPortAttestation::NotAttempted => crate::connectivity::NOT_ATTEMPTED@,
        PhysicalPortAttestation::AllPassed => "All attempted ports passed"@,
        PhysicalPortAttestation::Partial => "Some attempted ports passed"@,
        PhysicalPortAttestation::AnyFailed => "An attempted port failed"@,
    }
}

impl PhysicalPortAttestation {
    #[must_use]
    pub fn customer_label(self) -> (s: &'static str)
        ensures
            s@ == attestation_label(self),
    {
        match self {
            PhysicalPortAttestation::NotAttempted => crate::connectivity::NOT_ATTEMPTED,
            PhysicalPortAttestation::AllPassed => "All attempted ports passed",
            PhysicalPortAttestation::Partial => "Some attempted ports passed",
            PhysicalPortAttestation::AnyFailed => "An attempted port failed",
        }
    }
}

/// What Advance scan recorded about itself before grading.
#[derive(Debug, Clone, Copy, PartialEq, Eq, Structural)]
pub struct DiagnosticsRecord {
    pub elevation: ElevationState,
    pub benchmarks_consented: bool,
    pub write_benchmark_consented: bool,
    /// Bytes the consented write benchmark wrote.
    pub bytes_written: u64,
}

/// What the benchmarks reported: their five status lines, whether the
/// write benchmark's file was removed, and the memory pattern spot check.
#[derive(Debug, Clone)]
pub struct BenchSummary {
    pub cpu: String,
    pub memory: String,
    pub sequential: String,
    pub random: String,
    pub write: String,
    pub file_removed: bool,
    pub pattern_passed: Option<bool>,
}

/// The notice printed beside every grade this scan issues.
pub const ISSUANCE_NOTICE: &'static str = "Provisional until physical verification.";

/// What the timed workloads scored and the rubric's identity points.
#[derive(Debug, Clone, Copy, PartialEq, Eq, Structural)]
pub struct Timed {
    /// Sustained-clock points, when a consented CPU loop measured the clock.
    pub clock_points: Option<u32>,
    /// Bandwidth points, when the bandwidth workload ran.
    pub bandwidth_points: Option<u32>,
    pub pattern_passed: Option<bool>,
    pub identity_points: IdentityPoints,
}

/// The six domains' evidence, in rubric order.
pub open spec fn evidence_of(
    ev: Seq<DomainEvidence>,
    battery: BatteryProbe,
    form: DeviceForm,
    identity: CpuMemoryProbe,
    bench: Timed,
    storage: StorageProbe,
    storage_points: Option<u32>,
    usb: UsbProbe,
    radios: DisplayRadioProbe,
    interactive: InteractiveAttestations,
    points: RadioPoints,
) -> bool {
    &&& ev.len() == 6
    &&& battery_evidence_ok(ev[0], battery, form)
    &&& processor_evidence_ok(ev[1], identity, bench.clock_points, bench.identity_points)
    &&& memory_evidence_ok(ev[2], identity, bench.pattern_passed, bench.bandwidth_points, bench.identity_points)
    &&& storage_evidence_ok(ev[3], storage, storage_points)
    &&& ports_evidence_ok(ev[4], usb, radios, interactive, points)
    &&& screen_evidence_ok(ev[5], interactive)
}

/// The critical faults the grade must answer to: the scoring drives' faults,
/// then a failed memory spot check.
pub open spec fn criticals_of(storage: StorageProbe, pattern_passed: Option<bool>) -> Seq<CriticalFault> {
    faults_of(scoring_spec(storage.drives@)) + if pattern_passed == Some(false) {
        seq![CriticalFault::MemoryIntegrityMismatch]
    } else {
        Seq::empty()
    }
}

/// `s` is what `evaluate` returns for the evidence, form and faults.
pub open spec fn summary_of(
    s: CoverageSummary,
    ev: Seq<DomainEvidence>,
    form: DeviceForm,
    criticals: Seq<CriticalFault>,
) -> bool {
    &&& s.engine@ == GRADING_ENGINE_NAME@
    &&& s.rubric@ == GRADING_RUBRIC@
    &&& s.in_scope_points == sum_scope(ev)
    &&& s.assessed_points == sum_assessed(ev)
    &&& s.awarded_points == sum_awarded(ev)
    &&& s.not_assessable_points == sum_gap(ev)
    &&& s.coverage_percent == percent(sum_assessed(ev), sum_scope(ev))
    &&& s.index_percent == (if sum_assessed(ev) == 0 {
        None
    } else {
        Some(percent(sum_awarded(ev), sum_assessed(ev)) as u32)
    })
    &&& s.band == verdict(ev, form, criticals).0
    &&& (match s.withheld_reason {
        Some(r) => verdict(ev, form, criticals).1 == Some(r@),
        None => verdict(ev, form, criticals).1 is None,
    })
    &&& s.criticals@ == criticals
    &&& s.provisional
}

proof fn lemma_sums_bounded(ev: Seq<DomainEvidence>)
    requires
        forall|i: int| 0 <= i < ev.len() ==> (#[trigger] ev[i]).consistent(),
    ensures
        sum_scope(ev) <= 20 * ev.len(),
        sum_assessed(ev) <= 20 * ev.len(),
        sum_awarded(ev) <= 20 * ev.len(),
        sum_gap(ev) <= 20 * ev.len(),
    decreases ev.len(),
{
    if ev.len() > 0 {
        let front = ev.drop_last();
        assert forall|i: int| 0 <= i < front.len() implies (#[trigger] front[i]).consistent() by {
            assert(front[i] == ev[i]);
        }
        lemma_sums_bounded(front);
        let last = ev.last();
        assert(last == ev[ev.len() - 1]);
        assert(last.domain.points() <= 20);
    }
}

fn domain_evidence(
    battery: &BatteryProbe,
    form: DeviceForm,
    identity: &CpuMemoryProbe,
    timed: Timed,
    storage: &StorageProbe,
    storage_points: Option<u32>,
    usb: &UsbProbe,
    radios: &DisplayRadioProbe,
    interactive: InteractiveAttestations,
    points: RadioPoints,
) -> (ev: Vec<DomainEvidence>)
    requires
        points_fit(timed.clock_points, timed.bandwidth_points, timed.identity_points),
        ports_sums_fit(interactive, points),
    ensures
        evidence_of(ev@, *battery, form, *identity, timed, *storage, storage_points, *usb, *radios, interactive, points),
        forall|i: int| 0 <= i < ev@.len() ==> (#[trigger] ev@[i]).consistent(),
{
    let mut ev: Vec<DomainEvidence> = Vec::new();
    ev.push(battery_evidence(battery, form));
    ev.push(processor_evidence(identity, timed.clock_points, timed.identity_points));
    ev.push(memory_evidence(identity, timed.pattern_passed, timed.bandwidth_points, timed.identity_points));
    ev.push(storage_evidence(storage, storage_points));
    ev.push(ports_evidence(usb, radios, interactive, points));
    ev.push(screen_evidence(interactive));
    ev
}

fn criticals(storage: &StorageProbe, pattern_passed: Option<bool>) -> (c: Vec<CriticalFault>)
    ensures
        c@ == criticals_of(*storage, pattern_passed),
{
    let mut c = storage.critical_faults();
    match crate::advance_bench::memory_critical(pattern_passed) {
        Some(f) => c.push(f),
        None => {},
    }
    assert(c@ =~= criticals_of(*storage, pattern_passed));
    c
}

/// Bytes were written although the write benchmark was not permitted.
pub open spec fn wrote_without_consent(d: DiagnosticsRecord) -> bool {
    d.bytes_written > 0 && !d.write_benchmark_consented
}

#[verifier::spinoff_prover]
#[verifier::rlimit(80)]
/// Assemble Report D from everything the scan read and ask the grading
/// engine for its verdict. `timed` holds what the timed workloads scored;
/// `storage_points` are the SMART points of the worst scoring drive;
/// `points` are the ports rubric's topology points.
pub fn build_customer_scan(
    d: &DiagnosticsRecord,
    battery: &BatteryProbe,
    storage: &StorageProbe,
    storage_points: Option<u32>,
    usb: &UsbProbe,
    radios: &DisplayRadioProbe,
    capture: &CaptureProbe,
    identity: &CpuMemoryProbe,
    bench: &BenchSummary,
    timed: Timed,
    interactive: InteractiveAttestations,
    points: RadioPoints,
    form: DeviceForm,
) -> (s: CustomerAdvanceScan)
    requires
        points_fit(timed.clock_points, timed.bandwidth_points, timed.identity_points),
        timed.pattern_passed == bench.pattern_passed,
        ports_sums_fit(interactive, points),
    ensures
        s.ok == !wrote_without_consent(*d),
        !s.destructive_operations_enabled,
        !s.content_inspected,
        s.schema_version@ == SCHEMA_VERSION@,
        s.elevation_state@ == d.elevation.wire(),
        s.elevation_label@ == d.elevation.label_text(),
        s.benchmarks_consented == d.benchmarks_consented,
        s.write_benchmark_consented == d.write_benchmark_consented,
        s.bytes_written == d.bytes_written,
        s.boundary_note@ == boundary_text(d.benchmarks_consented, d.bytes_written),
        s.temporary_files_note@ == crate::diagnostics::temporary_files_text(
            battery.temporary_file_written,
            battery.temporary_file_removed,
            d.bytes_written,
            bench.file_removed,
        ),
        s.method_rows@.len() == method_rows_spec().len() && named_views(s.method_rows@) == method_rows_spec(),
        named_views(s.rubric_rows@) == rubric_rows_spec(),
        s.telemetry_groups@.len() == 15,
        s.grade_observation is None,
        s.issuance_notice@ == ISSUANCE_NOTICE@,
        exists|ev: Seq<DomainEvidence>, summary: CoverageSummary|
            #![trigger evidence_of(ev, *battery, form, *identity, timed, *storage, storage_points, *usb, *radios, interactive, points), summary_of(summary, ev, form, criticals_of(*storage, bench.pattern_passed))]
            {
                &&& evidence_of(ev, *battery, form, *identity, timed, *storage, storage_points, *usb, *radios, interactive, points)
                &&& summary_of(summary, ev, form, criticals_of(*storage, bench.pattern_passed))
                &&& s.message@ == outcome_text(summary, wrote_without_consent(*d))
                &&& named_views(s.coverage_rows@) == coverage_rows_spec(summary)
                &&& s.coverage_domains@.len() == 6
                &&& (forall|i: int| 0 <= i < 6 ==> coverage_row_of(#[trigger] s.coverage_domains@[i], ev[i]))
                &&& string_views(s.not_assessable@) == gap_lines(ev)
                &&& s.grading_engine@ == GRADING_ENGINE_NAME@
                &&& s.grading_rubric@ == GRADING_RUBRIC@
                &&& s.grade_label@ == summary.band.label_text()
                &&& s.grade_condition@ == summary.band.condition_text()
                &&& s.grade_withheld == (summary.band == crate::hardware_diagnostics_v1::GradeBand::NotGradable)
                &&& s.grade_withheld_reason == summary.withheld_reason
                &&& s.coverage_percent == summary.coverage_percent
                &&& s.index_percent == summary.index_percent
                &&& s.provisional
            },
{
    let wrote = d.bytes_written > 0 && !d.write_benchmark_consented;
    let ev = domain_evidence(battery, form, identity, timed, storage, storage_points, usb, radios, interactive, points);
    let faults = criticals(storage, bench.pattern_passed);
    proof {
        lemma_sums_bounded(ev@);
    }
    let summary = evaluate(ev.as_slice(), form, faults.as_slice());
    let ghost sum = summary;
    let message = outcome_message(&summary, wrote);
    let coverage = coverage_rows(&summary);
    let domains = coverage_domains(ev.as_slice());
    let gaps = not_assessable(ev.as_slice());
    let groups = telemetry_groups(
        battery,
        storage,
        usb,
        radios,
        capture,
        identity,
        interactive.physical_ports.customer_label(),
        [bench.cpu.as_str(), bench.memory.as_str(), bench.sequential.as_str(), bench.random.as_str(), bench.write.as_str()],
    );
    let grade_withheld = summary.is_withheld();
    let grade_label = summary.band.label();
    let grade_condition = summary.band.condition();
    let s = CustomerAdvanceScan {
        ok: !wrote,
        message,
        schema_version: SCHEMA_VERSION,
        elevation_state: d.elevation.as_str(),
        elevation_label: d.elevation.customer_label(),
        benchmarks_consented: d.benchmarks_consented,
        write_benchmark_consented: d.write_benchmark_consented,
        bytes_written: d.bytes_written,
        temporary_files_note: temporary_files_note(battery, d.bytes_written, bench.file_removed),
        destructive_operations_enabled: false,
        content_inspected: false,
        boundary_note: boundary_note(d.benchmarks_consented, d.bytes_written),
        telemetry_groups: groups,
        coverage_rows: coverage,
        coverage_domains: domains,
        method_rows: method_rows(),
        rubric_rows: rubric_rows(),
        not_assessable: gaps,
        grading_engine: summary.engine,
        grading_rubric: summary.rubric,
        grade_label,
        grade_condition,
        grade_observation: None,
        grade_withheld,
        grade_withheld_reason: summary.withheld_reason,
        issuance_notice: ISSUANCE_NOTICE,
        coverage_percent: summary.coverage_percent,
        index_percent: summary.index_percent,
        provisional: summary.provisional,
    };
    proof {
        let crit = criticals_of(*storage, bench.pattern_passed);
        assert(evidence_of(ev@, *battery, form, *identity, timed, *storage, storage_points, *usb, *radios, interactive, points));
        assert(summary_of(sum, ev@, form, crit));
        assert(s.message@ == outcome_text(sum, wrote_without_consent(*d)));
        assert(s.grade_withheld_reason == sum.withheld_reason);
    }
    s
}

} // verus!
