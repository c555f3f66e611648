//! The CYVRA Grading Engine: domains, evidence and rubric CG-1.0.
//!
//! Points are never awarded for evidence not held, a subsystem never measured
//! is never scored as a pass or as a fault, and the grade is withheld when too
//! little of the device could be assessed.
use vstd::prelude::*;
use crate::hardware_inventory_v1::{Confidence, DeviceIdentifier, InventoryField};
use crate::numtext::{dec, push_dec};
use crate::text::{append_all, append_str, join, string_of, views};

verus! {

pub const SCHEMA_VERSION: &'static str = "hardware_diagnostics_v1";

/// Printed on Report D. Deterministic rubric, no machine-learning inference.
pub const GRADING_ENGINE_NAME: &'static str = "CYVRA Grading Engine";

pub const GRADING_RUBRIC: &'static str = "CG-1.0";

/// Below this share of in-scope points the grade is withheld instead of banded.
pub const COVERAGE_FLOOR_PERCENT: u32 = 70;

#[derive(Debug, Clone, Copy, PartialEq, Eq, Structural)]
#[non_exhaustive]
pub enum DeviceForm {
    Portable,
    Fixed,
    Unknown,
}

#[derive(Debug, Clone, Copy, PartialEq, Eq, Structural)]
#[non_exhaustive]
pub enum ElevationState {
    NotRequested,
    Granted,
    Denied,
}

impl ElevationState {
    pub open spec fn wire(self) -> Seq<char> {
        match self {
            ElevationState::NotRequested => "not_requested"@,
            ElevationState::Granted => "granted"@,
            ElevationState::Denied => "denied"@,
        }
    }

    pub open spec fn label_text(self) -> Seq<char> {
        match self {
            ElevationState::NotRequested => "Administrator approval was not requested"@,
            ElevationState::Granted => "Administrator approval was granted"@,
            ElevationState::Denied => "Administrator approval was declined"@,
        }
    }

    #[must_use]
    pub fn as_str(self) -> (s: &'static str)
        ensures
            s@ == self.wire(),
    {
        match self {
            ElevationState::NotRequested => "not_requested",
            ElevationState::Granted => "granted",
            ElevationState::Denied => "denied",
        }
    }

    #[must_use]
    pub fn customer_label(self) -> (s: &'static str)
        ensures
            s@ == self.label_text(),
    {
        match self {
            ElevationState::NotRequested => "Administrator approval was not requested",
            ElevationState::Granted => "Administrator approval was granted",
            ElevationState::Denied => "Administrator approval was declined",
        }
    }
}

#[derive(Debug, Clone, Copy, PartialEq, Eq, PartialOrd, Ord, Structural)]
#[non_exhaustive]
pub enum DiagnosticDomain {
    BatteryAndPower,
    ProcessorAndThermal,
    MemoryIntegrity,
    StorageHealth,
    PortsAndConnectivity,
    ScreenAndPeripherals,
}

impl DiagnosticDomain {
    pub const ALL: [DiagnosticDomain; 6] = [
        DiagnosticDomain::BatteryAndPower,
        DiagnosticDomain::ProcessorAndThermal,
        DiagnosticDomain::MemoryIntegrity,
        DiagnosticDomain::StorageHealth,
        DiagnosticDomain::PortsAndConnectivity,
        DiagnosticDomain::ScreenAndPeripherals,
    ];

    /// The domain's share of the 100 rubric points.
    pub open spec fn points(self) -> nat {
        match self {
            DiagnosticDomain::BatteryAndPower => 20,
            DiagnosticDomain::ProcessorAndThermal => 20,
            DiagnosticDomain::MemoryIntegrity => 15,
            DiagnosticDomain::StorageHealth => 20,
            DiagnosticDomain::PortsAndConnectivity => 10,
            DiagnosticDomain::ScreenAndPeripherals => 15,
        }
    }

    pub open spec fn label_text(self) -> Seq<char> {
        match self {
            DiagnosticDomain::BatteryAndPower => "Battery and power"@,
            DiagnosticDomain::ProcessorAndThermal => "Processor and thermal stability"@,
            DiagnosticDomain::MemoryIntegrity => "Memory integrity and speed"@,
            DiagnosticDomain::StorageHealth => "Storage health and SMART"@,
            DiagnosticDomain::PortsAndConnectivity => "Ports and connectivity"@,
            DiagnosticDomain::ScreenAndPeripherals => "Screen, keyboard and peripherals"@,
        }
    }

    /// Storage is always required; battery only on a chassis meant to have one.
    pub open spec fn mandatory_for(self, form: DeviceForm) -> bool {
        match self {
            DiagnosticDomain::StorageHealth => true,
            DiagnosticDomain::BatteryAndPower => form is Portable,
            _ => false,
        }
    }

    #[must_use]
    pub fn weight(self) -> (w: u32)
        ensures
            w == self.points(),
    {
        match self {
            DiagnosticDomain::BatteryAndPower => 20,
            DiagnosticDomain::ProcessorAndThermal => 20,
            DiagnosticDomain::MemoryIntegrity => 15,
            DiagnosticDomain::StorageHealth => 20,
            DiagnosticDomain::PortsAndConnectivity => 10,
            DiagnosticDomain::ScreenAndPeripherals => 15,
        }
    }

    #[must_use]
    pub fn label(self) -> (s: &'static str)
        ensures
            s@ == self.label_text(),
    {
        match self {
            DiagnosticDomain::BatteryAndPower => "Battery and power",
            DiagnosticDomain::ProcessorAndThermal => "Processor and thermal stability",
            DiagnosticDomain::MemoryIntegrity => "Memory integrity and speed",
            DiagnosticDomain::StorageHealth => "Storage health and SMART",
            DiagnosticDomain::PortsAndConnectivity => "Ports and connectivity",
            DiagnosticDomain::ScreenAndPeripherals => "Screen, keyboard and peripherals",
        }
    }

    #[must_use]
    pub fn is_mandatory_for(self, form: DeviceForm) -> (r: bool)
        ensures
            r == self.mandatory_for(form),
    {
        match self {
            DiagnosticDomain::StorageHealth => true,
            DiagnosticDomain::BatteryAndPower => match form {
                DeviceForm::Portable => true,
                _ => false,
            },
            _ => false,
        }
    }
}

/// The six domains, in rubric order.
pub open spec fn all_domains() -> Seq<DiagnosticDomain> {
    seq![
        DiagnosticDomain::BatteryAndPower,
        DiagnosticDomain::ProcessorAndThermal,
        DiagnosticDomain::MemoryIntegrity,
        DiagnosticDomain::StorageHealth,
        DiagnosticDomain::PortsAndConnectivity,
        DiagnosticDomain::ScreenAndPeripherals,
    ]
}

pub open spec fn total_weight(domains: Seq<DiagnosticDomain>) -> nat
    decreases domains.len(),
{
    if domains.len() == 0 {
        0
    } else {
        total_weight(domains.drop_last()) + domains.last().points()
    }
}

/// The rubric's domain weights total one hundred points.
pub proof fn weights_total_one_hundred()
    ensures
        total_weight(all_domains()) == 100,
{
    let d = all_domains();
    assert(d.drop_last().drop_last().drop_last().drop_last().drop_last().drop_last() =~= Seq::<DiagnosticDomain>::empty());
    reveal_with_fuel(total_weight, 7);
}

/// A measured hard fault: positive evidence that overrides the band.
#[derive(Debug, Clone, Copy, PartialEq, Eq, Structural)]
#[non_exhaustive]
pub enum CriticalFault {
    MemoryIntegrityMismatch,
    StoragePredictsFailure,
    NvmeCriticalWarning,
    PendingSectorsPresent,
}

impl CriticalFault {
    pub open spec fn reason_text(self) -> Seq<char> {
        match self {
            CriticalFault::MemoryIntegrityMismatch => "Memory pattern check returned data that did not match what was written"@,
            CriticalFault::StoragePredictsFailure => "Storage firmware reports a predicted failure"@,
            CriticalFault::NvmeCriticalWarning => "NVMe controller reports a critical warning"@,
            CriticalFault::PendingSectorsPresent => "Storage reports sectors pending reallocation"@,
        }
    }

    #[must_use]
    pub fn reason(self) -> (s: &'static str)
        ensures
            s@ == self.reason_text(),
    {
        match self {
            CriticalFault::MemoryIntegrityMismatch => "Memory pattern check returned data that did not match what was written",
            CriticalFault::StoragePredictsFailure => "Storage firmware reports a predicted failure",
            CriticalFault::NvmeCriticalWarning => "NVMe controller reports a critical warning",
            CriticalFault::PendingSectorsPresent => "Storage reports sectors pending reallocation",
        }
    }
}

#[derive(Debug, Clone, Copy, PartialEq, Eq, Structural)]
#[non_exhaustive]
pub enum GradeBand {
    APlus,
    A,
    B,
    C,
    F,
    NotGradable,
}

/// The band an assessed index selects.
pub open spec fn band_for(index: nat) -> GradeBand {
    if index >= 90 {
        GradeBand::APlus
    } else if index >= 80 {
        GradeBand::A
    } else if index >= 65 {
        GradeBand::B
    } else if index >= 50 {
        GradeBand::C
    } else {
        GradeBand::F
    }
}

/// Order of the bands a score can reach, worst first.
pub open spec fn band_rank(b: GradeBand) -> nat {
    match b {
        GradeBand::F => 0,
        GradeBand::C => 1,
        GradeBand::B => 2,
        GradeBand::A => 3,
        GradeBand::APlus => 4,
        GradeBand::NotGradable => 0,
    }
}

/// A higher assessed index never selects a worse band.
pub proof fn band_is_monotone(i: nat, j: nat)
    requires
        i <= j,
    ensures
        band_rank(band_for(i)) <= band_rank(band_for(j)),
{
}

impl GradeBand {
    pub open spec fn label_text(self) -> Seq<char> {
        match self {
            GradeBand::APlus => "A+"@,
            GradeBand::A => "A"@,
            GradeBand::B => "B"@,
            GradeBand::C => "C"@,
            GradeBand::F => "F"@,
            GradeBand::NotGradable => "Grade withheld"@,
        }
    }

    pub open spec fn condition_text(self) -> Seq<char> {
        match self {
            GradeBand::APlus => "Pristine"@,
            GradeBand::A => "Excellent"@,
            GradeBand::B => "Fair"@,
            GradeBand::C => "Degraded, service recommended"@,
            GradeBand::F => "Defective or parts only"@,
            GradeBand::NotGradable => "Not enough of this device could be assessed"@,
        }
    }

    #[must_use]
    pub fn label(self) -> (s: &'static str)
        ensures
            s@ == self.label_text(),
    {
        match self {
            GradeBand::APlus => "A+",
            GradeBand::A => "A",
            GradeBand::B => "B",
            GradeBand::C => "C",
            GradeBand::F => "F",
            GradeBand::NotGradable => "Grade withheld",
        }
    }

    #[must_use]
    pub fn condition(self) -> (s: &'static str)
        ensures
            s@ == self.condition_text(),
    {
        match self {
            GradeBand::APlus => "Pristine",
            GradeBand::A => "Excellent",
            GradeBand::B => "Fair",
            GradeBand::C => "Degraded, service recommended",
            GradeBand::F => "Defective or parts only",
            GradeBand::NotGradable => "Not enough of this device could be assessed",
        }
    }

    #[must_use]
    pub fn from_index(index_percent: u32) -> (b: Self)
        ensures
            b == band_for(index_percent as nat),
    {
        if index_percent >= 90 {
            GradeBand::APlus
        } else if index_percent >= 80 {
            GradeBand::A
        } else if index_percent >= 65 {
            GradeBand::B
        } else if index_percent >= 50 {
            GradeBand::C
        } else {
            GradeBand::F
        }
    }
}

#[derive(Debug, Clone, Copy, PartialEq, Eq, Structural)]
#[non_exhaustive]
pub enum DomainApplicability {
    /// The domain applies to this chassis and counts toward the denominator.
    Assessable,
    /// The domain cannot exist on this chassis; its weight leaves the denominator.
    NotApplicable,
}

/// What one domain contributed: `assessed` points were measurable, `awarded`
/// of them were earned.
#[derive(Debug, Clone, PartialEq, Eq)]
pub struct DomainEvidence {
    pub domain: DiagnosticDomain,
    pub applicability: DomainApplicability,
    pub awarded: u32,
    pub assessed: u32,
    pub confidence: Confidence,
    pub note: Option<String>,
}

impl DomainEvidence {
    /// Points the domain puts in scope.
    pub open spec fn scope(&self) -> nat {
        match self.applicability {
            DomainApplicability::Assessable => self.domain.points(),
            DomainApplicability::NotApplicable => 0,
        }
    }

    /// In-scope points that were not assessed.
    pub open spec fn gap(&self) -> nat {
        if self.scope() >= self.assessed {
            (self.scope() - self.assessed) as nat
        } else {
            0
        }
    }

    /// The rubric's points invariant.
    pub open spec fn consistent(&self) -> bool {
        &&& self.awarded <= self.assessed
        &&& self.assessed <= self.scope()
        &&& self.assessed + self.gap() == self.scope()
    }

    /// The domain applies but nothing in it could be measured.
    #[must_use]
    pub fn not_assessable(domain: DiagnosticDomain, note: &str) -> (e: Self)
        ensures
            e.domain == domain,
            e.applicability == DomainApplicability::Assessable,
            e.awarded == 0,
            e.assessed == 0,
            e.confidence == Confidence::Unknown,
            e.note matches Some(n) && n@ == note@,
            e.consistent(),
    {
        DomainEvidence {
            domain,
            applicability: DomainApplicability::Assessable,
            awarded: 0,
            assessed: 0,
            confidence: Confidence::Unknown,
            note: Some(crate::text::owned(note)),
        }
    }

    /// The domain cannot apply to this chassis, for example a battery on a desktop.
    #[must_use]
    pub fn not_applicable(domain: DiagnosticDomain, note: &str) -> (e: Self)
        ensures
            e.domain == domain,
            e.applicability == DomainApplicability::NotApplicable,
            e.awarded == 0,
            e.assessed == 0,
            e.confidence == Confidence::High,
            e.note matches Some(n) && n@ == note@,
            e.consistent(),
    {
        DomainEvidence {
            domain,
            applicability: DomainApplicability::NotApplicable,
            awarded: 0,
            assessed: 0,
            confidence: Confidence::High,
            note: Some(crate::text::owned(note)),
        }
    }

    /// Measured evidence, with `assessed` clamped to the weight and `awarded`
    /// clamped to `assessed`, so no caller can inflate a score.
    #[must_use]
    pub fn measured(
        domain: DiagnosticDomain,
        awarded: u32,
        assessed: u32,
        confidence: Confidence,
    ) -> (e: Self)
        ensures
            e.domain == domain,
            e.applicability == DomainApplicability::Assessable,
            e.assessed as nat == (if assessed <= domain.points() { assessed as nat } else { domain.points() }),
            e.awarded == (if awarded <= e.assessed { awarded } else { e.assessed }),
            e.confidence == confidence,
            e.note is None,
            e.consistent(),
    {
        let weight = domain.weight();
        let assessed = if assessed < weight { assessed } else { weight };
        let awarded = if awarded < assessed { awarded } else { assessed };
        DomainEvidence {
            domain,
            applicability: DomainApplicability::Assessable,
            awarded,
            assessed,
            confidence,
            note: None,
        }
    }

    #[must_use]
    pub fn in_scope_points(&self) -> (p: u32)
        ensures
            p == self.scope(),
    {
        match self.applicability {
            DomainApplicability::Assessable => self.domain.weight(),
            DomainApplicability::NotApplicable => 0,
        }
    }

    #[must_use]
    pub fn not_assessable_points(&self) -> (p: u32)
        ensures
            p == self.gap(),
    {
        let scope = self.in_scope_points();
        if scope >= self.assessed {
            scope - self.assessed
        } else {
            0
        }
    }

    /// Never award more than was assessed, never assess more than the weight,
    /// and never claim points outside scope.
    #[must_use]
    pub fn is_consistent(&self) -> (r: bool)
        ensures
            r == self.consistent(),
    {
        let scope = self.in_scope_points();
        let gap = self.not_assessable_points();
        self.awarded <= self.assessed && self.assessed <= scope && (self.assessed as u64 + gap as u64
            == scope as u64)
    }
}

pub open spec fn sum_scope(ev: Seq<DomainEvidence>) -> nat
    decreases ev.len(),
{
    if ev.len() == 0 {
        0
    } else {
        sum_scope(ev.drop_last()) + ev.last().scope()
    }
}

pub open spec fn sum_assessed(ev: Seq<DomainEvidence>) -> nat
    decreases ev.len(),
{
    if ev.len() == 0 {
        0
    } else {
        sum_assessed(ev.drop_last()) + ev.last().assessed as nat
    }
}

pub open spec fn sum_awarded(ev: Seq<DomainEvidence>) -> nat
    decreases ev.len(),
{
    if ev.len() == 0 {
        0
    } else {
        sum_awarded(ev.drop_last()) + ev.last().awarded as nat
    }
}

pub open spec fn sum_gap(ev: Seq<DomainEvidence>) -> nat
    decreases ev.len(),
{
    if ev.len() == 0 {
        0
    } else {
        sum_gap(ev.drop_last()) + ev.last().gap()
    }
}

/// `part` as a rounded percentage of `whole`, saturating at `u32::MAX`.
pub open spec fn percent(part: nat, whole: nat) -> nat {
    if whole == 0 {
        0
    } else if (part * 100 + whole / 2) / whole <= u32::MAX {
        (part * 100 + whole / 2) / whole
    } else {
        u32::MAX as nat
    }
}

/// Applicable domains with nothing assessed that the chassis requires.
pub open spec fn is_missing_mandatory(e: DomainEvidence, form: DeviceForm) -> bool {
    e.applicability == DomainApplicability::Assessable && e.assessed == 0 && e.domain.mandatory_for(
        form,
    )
}

pub open spec fn missing_mandatory(ev: Seq<DomainEvidence>, form: DeviceForm) -> Seq<Seq<char>> {
    ev.filter(|e: DomainEvidence| is_missing_mandatory(e, form)).map_values(
        |e: DomainEvidence| e.domain.label_text(),
    )
}

pub open spec fn missing_text(labels: Seq<Seq<char>>) -> Seq<char> {
    "Grade withheld. A required area could not be assessed in this scan: "@ + join(labels, ", "@)
        + "."@
}

pub open spec fn nothing_text() -> Seq<char> {
    "Grade withheld. No diagnostic area could be assessed in this scan."@
}

pub open spec fn floor_text(coverage: nat) -> Seq<char> {
    "Grade withheld. Only "@ + dec(coverage) + "% of this device could be assessed, below the "@
        + dec(COVERAGE_FLOOR_PERCENT as nat) + "% required for a grade."@
}

/// The band and withheld reason that rubric CG-1.0 assigns, in its order of
/// precedence: a critical fault, a missing mandatory domain, nothing
/// assessed, coverage below the floor, and otherwise the assessed index.
pub open spec fn verdict(
    ev: Seq<DomainEvidence>,
    form: DeviceForm,
    criticals: Seq<CriticalFault>,
) -> (GradeBand, Option<Seq<char>>) {
    let assessed = sum_assessed(ev);
    let coverage = percent(assessed, sum_scope(ev));
    let missing = missing_mandatory(ev, form);
    if criticals.len() > 0 {
        (GradeBand::F, Some(criticals[0].reason_text()))
    } else if missing.len() > 0 {
        (GradeBand::NotGradable, Some(missing_text(missing)))
    } else if assessed == 0 {
        (GradeBand::NotGradable, Some(nothing_text()))
    } else if coverage < COVERAGE_FLOOR_PERCENT {
        (GradeBand::NotGradable, Some(floor_text(coverage)))
    } else {
        (band_for(percent(sum_awarded(ev), assessed)), None)
    }
}

/// The grade block printed on Report D.
#[derive(Debug, Clone, PartialEq, Eq)]
pub struct CoverageSummary {
    pub engine: &'static str,
    pub rubric: &'static str,
    pub in_scope_points: u32,
    pub assessed_points: u32,
    pub awarded_points: u32,
    pub not_assessable_points: u32,
    pub coverage_percent: u32,
    /// `None` when nothing at all was assessable. Never rendered as zero.
    pub index_percent: Option<u32>,
    pub band: GradeBand,
    pub withheld_reason: Option<String>,
    pub criticals: Vec<CriticalFault>,
    /// True while physical verification and issuance are still outstanding.
    pub provisional: bool,
}

impl CoverageSummary {
    #[must_use]
    pub fn is_withheld(&self) -> (r: bool)
        ensures
            r == (self.band == GradeBand::NotGradable),
    {
        match self.band {
            GradeBand::NotGradable => true,
            _ => false,
        }
    }
}

fn percent_of(part: u32, whole: u32) -> (p: u32)
    ensures
        p == percent(part as nat, whole as nat),
{
    if whole == 0 {
        return 0;
    }
    let q: u64 = (part as u64 * 100 + whole as u64 / 2) / whole as u64;
    if q <= 0xffff_ffff {
        q as u32
    } else {
        0xffff_ffff
    }
}

/// The labels of the mandatory domains that were applicable but unassessed.
fn missing_labels(evidence: &[DomainEvidence], form: DeviceForm) -> (out: Vec<Vec<char>>)
    ensures
        views(out@) == missing_mandatory(evidence@, form),
{
    let mut out: Vec<Vec<char>> = Vec::new();
    let mut i: usize = 0;
    while i < evidence.len()
        invariant
            i <= evidence.len(),
            views(out@) == missing_mandatory(evidence@.take(i as int), form),
        decreases evidence.len() - i,
    {
        let e = &evidence[i];
        let ghost pre = evidence@.take(i as int);
        assert(evidence@.take(i + 1).drop_last() =~= pre);
        reveal_with_fuel(Seq::<_>::filter, 1);
        let missing = match e.applicability {
            DomainApplicability::Assessable => e.assessed == 0 && e.domain.is_mandatory_for(form),
            DomainApplicability::NotApplicable => false,
        };
        if missing {
            let ghost prev = views(out@);
            let label = crate::text::chars_of(e.domain.label());
            let ghost lv = label@;
            out.push(label);
            assert(views(out@) =~= prev.push(lv));
            assert(evidence@.take(i + 1).filter(|e: DomainEvidence| is_missing_mandatory(e, form))
                =~= pre.filter(|e: DomainEvidence| is_missing_mandatory(e, form)).push(*e));
        } else {
            assert(evidence@.take(i + 1).filter(|e: DomainEvidence| is_missing_mandatory(e, form))
                =~= pre.filter(|e: DomainEvidence| is_missing_mandatory(e, form)));
        }
        i += 1;
    }
    assert(evidence@.take(evidence.len() as int) =~= evidence@);
    out
}

/// Apply rubric CG-1.0.
///
/// Precedence, in this order:
/// 1. a measured critical fault forces `F`, because it is evidence we hold;
/// 2. a mandatory domain with nothing assessable withholds the grade;
/// 3. coverage below the floor withholds the grade;
/// 4. otherwise the assessed index selects the band.
#[must_use]
pub fn evaluate(
    evidence: &[DomainEvidence],
    form: DeviceForm,
    criticals: &[CriticalFault],
) -> (s: CoverageSummary)
    requires
        sum_scope(evidence@) <= u32::MAX,
        sum_assessed(evidence@) <= u32::MAX,
        sum_awarded(evidence@) <= u32::MAX,
        sum_gap(evidence@) <= u32::MAX,
    ensures
        s.engine@ == GRADING_ENGINE_NAME@,
        s.rubric@ == GRADING_RUBRIC@,
        s.in_scope_points == sum_scope(evidence@),
        s.assessed_points == sum_assessed(evidence@),
        s.awarded_points == sum_awarded(evidence@),
        s.not_assessable_points == sum_gap(evidence@),
        s.coverage_percent == percent(sum_assessed(evidence@), sum_scope(evidence@)),
        s.index_percent == (if sum_assessed(evidence@) == 0 {
            None
        } else {
            Some(percent(sum_awarded(evidence@), sum_assessed(evidence@)) as u32)
        }),
        s.band == verdict(evidence@, form, criticals@).0,
        (match s.withheld_reason {
            Some(r) => verdict(evidence@, form, criticals@).1 == Some(r@),
            None => verdict(evidence@, form, criticals@).1 is None,
        }),
        s.criticals@ == criticals@,
        s.provisional,
{
    let mut in_scope: u32 = 0;
    let mut assessed: u32 = 0;
    let mut awarded: u32 = 0;
    let mut gap: u32 = 0;
    let mut i: usize = 0;
    while i < evidence.len()
        invariant
            i <= evidence.len(),
            sum_scope(evidence@) <= u32::MAX,
            sum_assessed(evidence@) <= u32::MAX,
            sum_awarded(evidence@) <= u32::MAX,
            sum_gap(evidence@) <= u32::MAX,
            in_scope == sum_scope(evidence@.take(i as int)),
            assessed == sum_assessed(evidence@.take(i as int)),
            awarded == sum_awarded(evidence@.take(i as int)),
            gap == sum_gap(evidence@.take(i as int)),
        decreases evidence.len() - i,
    {
        let e = &evidence[i];
        assert(evidence@.take(i + 1).drop_last() =~= evidence@.take(i as int));
        proof {
            lemma_sums_prefix_le(evidence@, i + 1);
        }
        in_scope = in_scope + e.in_scope_points();
        assessed = assessed + e.assessed;
        awarded = awarded + e.awarded;
        gap = gap + e.not_assessable_points();
        i += 1;
    }
    assert(evidence@.take(evidence.len() as int) =~= evidence@);
    let coverage = percent_of(assessed, in_scope);
    let index = if assessed == 0 { None } else { Some(percent_of(awarded, assessed)) };
    let missing = missing_labels(evidence, form);
    let mut crit: Vec<CriticalFault> = Vec::new();
    let mut k: usize = 0;
    while k < criticals.len()
        invariant
            k <= criticals.len(),
            crit@ == criticals@.take(k as int),
        decreases criticals.len() - k,
    {
        crit.push(criticals[k]);
        k += 1;
        assert(crit@ =~= criticals@.take(k as int));
    }
    assert(crit@ =~= criticals@);
    let (band, reason) = if criticals.len() > 0 {
        (GradeBand::F, Some(crate::text::owned(criticals[0].reason())))
    } else if missing.len() > 0 {
        let mut text: Vec<char> = Vec::new();
        append_str(&mut text, "Grade withheld. A required area could not be assessed in this scan: ");
        let sep = crate::text::chars_of(", ");
        let joined = crate::text::join_vec(&missing, &sep);
        append_all(&mut text, &joined);
        append_str(&mut text, ".");
        (GradeBand::NotGradable, Some(string_of(&text)))
    } else if assessed == 0 {
        (GradeBand::NotGradable, Some(crate::text::owned("Grade withheld. No diagnostic area could be assessed in this scan.")))
    } else if coverage < COVERAGE_FLOOR_PERCENT {
        let mut text: Vec<char> = Vec::new();
        append_str(&mut text, "Grade withheld. Only ");
        push_dec(&mut text, coverage as u64);
        append_str(&mut text, "% of this device could be assessed, below the ");
        push_dec(&mut text, COVERAGE_FLOOR_PERCENT as u64);
        append_str(&mut text, "% required for a grade.");
        (GradeBand::NotGradable, Some(string_of(&text)))
    } else {
        let b = match index {
            Some(v) => GradeBand::from_index(v),
            None => GradeBand::NotGradable,
        };
        (b, None)
    };
    CoverageSummary {
        engine: GRADING_ENGINE_NAME,
        rubric: GRADING_RUBRIC,
        in_scope_points: in_scope,
        assessed_points: assessed,
        awarded_points: awarded,
        not_assessable_points: gap,
        coverage_percent: coverage,
        index_percent: index,
        band,
        withheld_reason: reason,
        criticals: crit,
        provisional: true,
    }
}

proof fn lemma_sums_prefix_le(ev: Seq<DomainEvidence>, i: int)
    requires
        0 <= i <= ev.len(),
    ensures
        sum_scope(ev.take(i)) <= sum_scope(ev),
        sum_assessed(ev.take(i)) <= sum_assessed(ev),
        sum_awarded(ev.take(i)) <= sum_awarded(ev),
        sum_gap(ev.take(i)) <= sum_gap(ev),
    decreases ev.len() - i,
{
    if i < ev.len() {
        assert(ev.drop_last().take(i) =~= ev.take(i));
        lemma_sums_prefix_le(ev.drop_last(), i);
    } else {
        assert(ev.take(i) =~= ev);
    }
}

/// Over consistent evidence, every in-scope point is either assessed or
/// counted as not assessable.
pub proof fn scope_is_assessed_plus_gap(ev: Seq<DomainEvidence>)
    requires
        forall|i: int| 0 <= i < ev.len() ==> (#[trigger] ev[i]).consistent(),
    ensures
        sum_scope(ev) == sum_assessed(ev) + sum_gap(ev),
        sum_awarded(ev) <= sum_assessed(ev),
        sum_assessed(ev) <= sum_scope(ev),
    decreases ev.len(),
{
    if ev.len() > 0 {
        assert(ev.last() == ev[ev.len() - 1]);
        scope_is_assessed_plus_gap(ev.drop_last());
    }
}

/// Over consistent evidence, coverage never exceeds 100% and the assessed
/// index never exceeds 100.
pub proof fn percentages_are_bounded(ev: Seq<DomainEvidence>)
    requires
        forall|i: int| 0 <= i < ev.len() ==> (#[trigger] ev[i]).consistent(),
    ensures
        percent(sum_assessed(ev), sum_scope(ev)) <= 100,
        percent(sum_awarded(ev), sum_assessed(ev)) <= 100,
{
    scope_is_assessed_plus_gap(ev);
    lemma_percent_le_100(sum_assessed(ev), sum_scope(ev));
    lemma_percent_le_100(sum_awarded(ev), sum_assessed(ev));
}

proof fn lemma_percent_le_100(part: nat, whole: nat)
    requires
        part <= whole,
    ensures
        percent(part, whole) <= 100,
{
    if whole > 0 {
        assert((part * 100 + whole / 2) / whole <= 100) by (nonlinear_arith)
            requires
                part <= whole,
                whole > 0,
        {
            assert(part * 100 + whole / 2 < 101 * whole);
        }
    }
}

// ---- Advance scan sections without floating-point fields ----

/// Memory as the operating system reports it at run time.
#[derive(Debug, Clone)]
pub struct MemoryRuntime {
    pub total_bytes: InventoryField<u64>,
    pub available_bytes: InventoryField<u64>,
    pub commit_limit_bytes: InventoryField<u64>,
    pub channel_mode: InventoryField<String>,
}

/// One USB port as topology reports it; `physically_verified` only after a
/// technician inserted a device.
#[derive(Debug, Clone)]
pub struct UsbTopologyPort {
    pub controller: InventoryField<String>,
    pub hub: InventoryField<String>,
    pub port_index: InventoryField<u32>,
    pub occupied: InventoryField<bool>,
    pub negotiated_speed: InventoryField<String>,
    pub supported_speed: InventoryField<String>,
    pub physically_verified: InventoryField<bool>,
}

/// A display panel, from its EDID block. Not `Debug`: it holds the panel
/// serial.
#[derive(Clone)]
pub struct DisplayPanel {
    pub manufacturer: InventoryField<String>,
    pub product_code: InventoryField<String>,
    pub panel_serial: InventoryField<DeviceIdentifier>,
    pub native_width: InventoryField<u32>,
    pub native_height: InventoryField<u32>,
    pub refresh_hz: InventoryField<u32>,
    pub bit_depth: InventoryField<u32>,
    pub hdr_capable: InventoryField<bool>,
    pub manufacture_week: InventoryField<u32>,
    pub manufacture_year: InventoryField<u32>,
    pub internal_panel: InventoryField<bool>,
}

/// A Wi-Fi, Bluetooth or Ethernet adapter. No hardware address is kept.
#[derive(Debug, Clone)]
pub struct RadioDetail {
    pub kind: InventoryField<String>,
    pub description: InventoryField<String>,
    pub state: InventoryField<String>,
    pub signal_quality_percent: InventoryField<u32>,
    pub rssi_dbm: InventoryField<i32>,
    pub receive_mbps: InventoryField<u32>,
    pub transmit_mbps: InventoryField<u32>,
    pub radio_standards: InventoryField<String>,
}

/// A camera or microphone Windows enumerated.
#[derive(Debug, Clone)]
pub struct CaptureDevice {
    pub kind: InventoryField<String>,
    pub friendly_name: InventoryField<String>,
    pub enumerated_by: InventoryField<String>,
    pub present: InventoryField<bool>,
}

/// A check a technician performed and attested.
#[derive(Debug, Clone)]
pub struct InteractiveCheck {
    pub subject: InventoryField<String>,
    pub outcome: InventoryField<String>,
    pub detail: InventoryField<String>,
    pub attested_by_operator: InventoryField<bool>,
}

} // verus!
