//! Battery and power collection for Advance scan.
//!
//! Every source Windows offers is asked, why each source failed is recorded,
//! and the firmware battery report is used only when the management classes
//! produced no capacity. Nothing here estimates: a battery whose firmware
//! withholds design capacity stays unknown, and a percentage is never
//! manufactured from a charge level.

use vstd::prelude::*;
use crate::probe_protocol::{
    flag_spec, lookup, opt_view, parse_protocol, parse_spec, strs, text_value, wire_outcome,
    ProtocolValues, WireOutcome,
};
use crate::numtext::parse_u64_spec;
use crate::text::owned;

verus! {

pub const MAX_PROTOCOL_LINES: usize = 512;
pub const MAX_VALUE_BYTES: usize = 2048;
pub const MAX_BATTERY_INDEX: usize = 8;

/// Windows reports relative units instead of mWh for some packs. When that is
/// the case a capacity number must never be labelled as energy.
pub const RELATIVE_CAPACITY_NOTE: &'static str = "Firmware reports this pack in relative units, not milliwatt-hours, so capacities are shown without an energy unit.";

/// Asks the battery class, the firmware capacity classes and, only when no
/// design capacity was seen, Windows' own battery report.
pub const BATTERY_SCRIPT: &'static str = r#"
$ErrorActionPreference = 'Stop'
$ProgressPreference = 'SilentlyContinue'

function Emit-Value([string]$section, [int]$index, [string]$name, $value) {
    if ($null -eq $value) { return }
    $text = [Convert]::ToString($value, [Globalization.CultureInfo]::InvariantCulture)
    if ($null -eq $text) { return }
    $text = $text.Trim()
    if ($text.Length -eq 0) { return }
    $bytes = [Text.Encoding]::UTF8.GetBytes($text)
    $hex = -join ($bytes | ForEach-Object { $_.ToString('x2') })
    [Console]::Out.WriteLine("$section`t$index`t$name`t$hex")
}

function Emit-Status([string]$section, $errorRecord) {
    $status = 'collection_error'
    if ($null -ne $errorRecord) {
        $hresult = $errorRecord.Exception.HResult
        $native = $errorRecord.Exception.NativeErrorCode
        if (($hresult -eq -2147024891) -or ($native -eq 5)) { $status = 'permission_denied' }
        elseif ($errorRecord.Exception -is [Management.Automation.CommandNotFoundException]) { $status = 'unsupported' }
        elseif ("$($errorRecord.Exception.Message)" -match 'not supported|Invalid class|Not found') { $status = 'unsupported' }
    }
    Emit-Value $section 0 'source_status' $status
}

$designSeen = $false

try {
    $items = @(Get-CimInstance -ClassName Win32_Battery -ErrorAction Stop)
    Emit-Value 'battery' 0 'source_status' 'reported'
    Emit-Value 'battery' 0 'record_count' $items.Count
    for ($i = 0; $i -lt $items.Count; $i++) {
        $b = $items[$i]
        Emit-Value 'battery' $i 'present' $true
        Emit-Value 'battery' $i 'name' $b.Name
        Emit-Value 'battery' $i 'manufacturer' $b.Manufacturer
        Emit-Value 'battery' $i 'device_id' $b.DeviceID
        Emit-Value 'battery' $i 'chemistry_code' $b.Chemistry
        Emit-Value 'battery' $i 'battery_status_code' $b.BatteryStatus
        Emit-Value 'battery' $i 'charge_percent' $b.EstimatedChargeRemaining
        Emit-Value 'battery' $i 'design_voltage_mv' $b.DesignVoltage
        if ($b.DesignCapacity -and ([int64]$b.DesignCapacity) -gt 0) {
            Emit-Value 'battery' $i 'designed_capacity' $b.DesignCapacity
            $designSeen = $true
        }
        if ($b.FullChargeCapacity -and ([int64]$b.FullChargeCapacity) -gt 0) {
            Emit-Value 'battery' $i 'full_charge_capacity' $b.FullChargeCapacity
        }
    }
} catch { Emit-Status 'battery' $_ }

try {
    $items = @(Get-CimInstance -Namespace 'root/WMI' -ClassName BatteryStaticData -ErrorAction Stop)
    Emit-Value 'static' 0 'source_status' 'reported'
    for ($i = 0; $i -lt $items.Count; $i++) {
        $s = $items[$i]
        if ($s.DesignedCapacity -and ([int64]$s.DesignedCapacity) -gt 0) {
            Emit-Value 'static' $i 'designed_capacity' $s.DesignedCapacity
            $designSeen = $true
        }
        Emit-Value 'static' $i 'capabilities' $s.Capabilities
        Emit-Value 'static' $i 'chemistry' $s.Chemistry
        Emit-Value 'static' $i 'manufacture_date' $s.ManufactureDate
        Emit-Value 'static' $i 'serial_number' $s.SerialNumber
        Emit-Value 'static' $i 'device_name' $s.DeviceName
    }
} catch { Emit-Status 'static' $_ }

try {
    $items = @(Get-CimInstance -Namespace 'root/WMI' -ClassName BatteryFullChargedCapacity -ErrorAction Stop)
    Emit-Value 'full' 0 'source_status' 'reported'
    for ($i = 0; $i -lt $items.Count; $i++) {
        $f = $items[$i]
        if ($f.FullChargedCapacity -and ([int64]$f.FullChargedCapacity) -gt 0) {
            Emit-Value 'full' $i 'full_charge_capacity' $f.FullChargedCapacity
        }
    }
} catch { Emit-Status 'full' $_ }

try {
    $items = @(Get-CimInstance -Namespace 'root/WMI' -ClassName BatteryCycleCount -ErrorAction Stop)
    Emit-Value 'cycle' 0 'source_status' 'reported'
    for ($i = 0; $i -lt $items.Count; $i++) {
        $c = $items[$i]
        if ($c.CycleCount -and ([int64]$c.CycleCount) -gt 0) {
            Emit-Value 'cycle' $i 'cycle_count' $c.CycleCount
        }
    }
} catch { Emit-Status 'cycle' $_ }

if (-not $designSeen) {
    try {
        $report = Join-Path $env:TEMP 'cyvra-battery-report.xml'
        if (Test-Path $report) { Remove-Item $report -Force -ErrorAction SilentlyContinue }
        $null = & powercfg.exe /batteryreport /xml /output $report 2>$null
        if (Test-Path $report) {
            Emit-Value 'firmware' 0 'temporary_file_written' $true
            [xml]$xml = Get-Content -LiteralPath $report -Raw -ErrorAction Stop
            $packs = @($xml.BatteryReport.Batteries.Battery)
            Emit-Value 'firmware' 0 'source_status' 'reported'
            for ($i = 0; $i -lt $packs.Count; $i++) {
                $p = $packs[$i]
                if ($p.DesignCapacity -and ([int64]$p.DesignCapacity) -gt 0) {
                    Emit-Value 'firmware' $i 'designed_capacity' $p.DesignCapacity
                }
                if ($p.FullChargeCapacity -and ([int64]$p.FullChargeCapacity) -gt 0) {
                    Emit-Value 'firmware' $i 'full_charge_capacity' $p.FullChargeCapacity
                }
                if ($p.CycleCount -and ([int64]$p.CycleCount) -gt 0) {
                    Emit-Value 'firmware' $i 'cycle_count' $p.CycleCount
                }
                Emit-Value 'firmware' $i 'manufacturer' $p.Manufacturer
                Emit-Value 'firmware' $i 'serial_number' $p.SerialNumber
                Emit-Value 'firmware' $i 'chemistry' $p.Chemistry
                Emit-Value 'firmware' $i 'device_name' $p.Id
            }
            Remove-Item $report -Force -ErrorAction SilentlyContinue
            if (-not (Test-Path $report)) {
                Emit-Value 'firmware' 0 'temporary_file_removed' $true
            }
        } else {
            Emit-Value 'firmware' 0 'source_status' 'unsupported'
        }
    } catch { Emit-Status 'firmware' $_ }
}
"#;

/// Where a battery value came from, and whether that source answered at all.
#[derive(Debug, Clone, Copy, PartialEq, Eq, Structural)]
#[non_exhaustive]
pub enum BatterySource {
    ManagementClass,
    StaticData,
    FullChargedCapacity,
    CycleCount,
    FirmwareReport,
}

impl BatterySource {
    pub open spec fn label_text(self) -> Seq<char> {
        match self {
            BatterySource::ManagementClass => "Windows battery class"@,
            BatterySource::StaticData => "Firmware static data"@,
            BatterySource::FullChargedCapacity => "Firmware full-charge capacity"@,
            BatterySource::CycleCount => "Firmware cycle count"@,
            BatterySource::FirmwareReport => "Windows battery report"@,
        }
    }

    #[must_use]
    pub fn label(self) -> (s: &'static str)
        ensures
            s@ == self.label_text(),
    {
        match self {
            BatterySource::ManagementClass => "Windows battery class",
            BatterySource::StaticData => "Firmware static data",
            BatterySource::FullChargedCapacity => "Firmware full-charge capacity",
            BatterySource::CycleCount => "Firmware cycle count",
            BatterySource::FirmwareReport => "Windows battery report",
        }
    }

    pub open spec fn section_text(self) -> Seq<char> {
        match self {
            BatterySource::ManagementClass => "battery"@,
            BatterySource::StaticData => "static"@,
            BatterySource::FullChargedCapacity => "full"@,
            BatterySource::CycleCount => "cycle"@,
            BatterySource::FirmwareReport => "firmware"@,
        }
    }

    fn section(self) -> (s: &'static str)
        ensures
            s@ == self.section_text(),
    {
        match self {
            BatterySource::ManagementClass => "battery",
            BatterySource::StaticData => "static",
            BatterySource::FullChargedCapacity => "full",
            BatterySource::CycleCount => "cycle",
            BatterySource::FirmwareReport => "firmware",
        }
    }
}

/// Every source, in the order capacities are searched and reported.
pub open spec fn source_at(i: int) -> BatterySource {
    if i == 0 {
        BatterySource::ManagementClass
    } else if i == 1 {
        BatterySource::StaticData
    } else if i == 2 {
        BatterySource::FullChargedCapacity
    } else if i == 3 {
        BatterySource::CycleCount
    } else {
        BatterySource::FirmwareReport
    }
}

fn all_sources() -> (v: Vec<BatterySource>)
    ensures
        v@.len() == 5,
        forall|i: int| 0 <= i < 5 ==> v@[i] == source_at(i),
{
    vec![
        BatterySource::ManagementClass,
        BatterySource::StaticData,
        BatterySource::FullChargedCapacity,
        BatterySource::CycleCount,
        BatterySource::FirmwareReport,
    ]
}

/// Why a source did or did not answer.
#[derive(Debug, Clone, Copy, PartialEq, Eq, Structural)]
#[non_exhaustive]
pub enum SourceOutcome {
    Reported,
    NotQueried,
    PermissionDenied,
    Unsupported,
    CollectionError,
}

pub open spec fn outcome_of(w: WireOutcome) -> SourceOutcome {
    match w {
        WireOutcome::Reported => SourceOutcome::Reported,
        WireOutcome::NotQueried => SourceOutcome::NotQueried,
        WireOutcome::PermissionDenied => SourceOutcome::PermissionDenied,
        WireOutcome::Unsupported => SourceOutcome::Unsupported,
        WireOutcome::CollectionError => SourceOutcome::CollectionError,
    }
}

impl SourceOutcome {
    pub open spec fn customer_text(self) -> Seq<char> {
        match self {
            SourceOutcome::Reported => "Answered"@,
            SourceOutcome::NotQueried => "Not queried on this PC"@,
            SourceOutcome::PermissionDenied => "Refused without administrator rights"@,
            SourceOutcome::Unsupported => "Not available on this PC"@,
            SourceOutcome::CollectionError => "Windows returned an error"@,
        }
    }

    #[must_use]
    pub fn customer_label(self) -> (s: &'static str)
        ensures
            s@ == self.customer_text(),
    {
        match self {
            SourceOutcome::Reported => "Answered",
            SourceOutcome::NotQueried => "Not queried on this PC",
            SourceOutcome::PermissionDenied => "Refused without administrator rights",
            SourceOutcome::Unsupported => "Not available on this PC",
            SourceOutcome::CollectionError => "Windows returned an error",
        }
    }

    fn from_wire(w: WireOutcome) -> (o: Self)
        ensures
            o == outcome_of(w),
    {
        match w {
            WireOutcome::Reported => SourceOutcome::Reported,
            WireOutcome::NotQueried => SourceOutcome::NotQueried,
            WireOutcome::PermissionDenied => SourceOutcome::PermissionDenied,
            WireOutcome::Unsupported => SourceOutcome::Unsupported,
            WireOutcome::CollectionError => SourceOutcome::CollectionError,
        }
    }
}

#[derive(Debug, Clone, Copy, PartialEq, Eq, Structural)]
pub struct SourceStatus {
    pub source: BatterySource,
    pub outcome: SourceOutcome,
}

/// One battery pack, as reported. Every field is optional on purpose.
#[derive(Debug, Clone, PartialEq, Eq)]
pub struct BatteryReading {
    pub present: bool,
    pub device_name: Option<String>,
    pub manufacturer: Option<String>,
    pub serial_number: Option<String>,
    pub chemistry: Option<String>,
    pub manufacture_date: Option<String>,
    pub designed_capacity: Option<u64>,
    pub full_charge_capacity: Option<u64>,
    pub cycle_count: Option<u32>,
    pub charge_percent: Option<u32>,
    pub design_voltage_mv: Option<u32>,
    pub status_text: Option<String>,
    /// Capacities are unitless relative values rather than mWh.
    pub relative_capacity: bool,
    pub capacity_source: Option<BatterySource>,
}

impl Default for BatteryReading {
    /// An absent pack with nothing reported.
    fn default() -> (r: Self)
        ensures
            !r.present,
            r.device_name is None,
            r.manufacturer is None,
            r.serial_number is None,
            r.chemistry is None,
            r.manufacture_date is None,
            r.designed_capacity is None,
            r.full_charge_capacity is None,
            r.cycle_count is None,
            r.charge_percent is None,
            r.design_voltage_mv is None,
            r.status_text is None,
            !r.relative_capacity,
            r.capacity_source is None,
    {
        BatteryReading {
            present: false,
            device_name: None,
            manufacturer: None,
            serial_number: None,
            chemistry: None,
            manufacture_date: None,
            designed_capacity: None,
            full_charge_capacity: None,
            cycle_count: None,
            charge_percent: None,
            design_voltage_mv: None,
            status_text: None,
            relative_capacity: false,
            capacity_source: None,
        }
    }
}

/// Both capacities are real and their ratio is sane: full charge between 5%
/// and 150% of design.
pub open spec fn capacities_sane(designed: u64, full: u64) -> bool {
    designed > 0 && full > 0 && 20 * full >= designed && 2 * full <= 3 * designed
}

/// The capacities (full charge, design) wear may be computed from.
pub open spec fn wear_basis(r: BatteryReading) -> Option<(u64, u64)> {
    match (r.designed_capacity, r.full_charge_capacity) {
        (Some(d), Some(f)) => if capacities_sane(d, f) {
            Some((f, d))
        } else {
            None
        },
        _ => None,
    }
}

/// Good / Degraded / Critical: health (full charge over design, at most
/// 100%) of at least 80%, at least 50%, or below.
pub open spec fn health_band_spec(r: BatteryReading) -> Option<Seq<char>> {
    match wear_basis(r) {
        Some((f, d)) => if 5 * f >= 4 * d {
            Some("Good"@)
        } else if 2 * f >= d {
            Some("Degraded"@)
        } else {
            Some("Critical"@)
        },
        None => None,
    }
}

impl BatteryReading {
    /// The full-charge and design capacities, when both are real and sane;
    /// wear is one minus their ratio, never below zero.
    #[must_use]
    pub fn capacity_basis(&self) -> (r: Option<(u64, u64)>)
        ensures
            r == wear_basis(*self),
    {
        match (self.designed_capacity, self.full_charge_capacity) {
            (Some(d), Some(f)) => {
                if d > 0 && f > 0 && (f as u128) * 20 >= d as u128 && (f as u128) * 2 <= (d as u128)
                    * 3 {
                    Some((f, d))
                } else {
                    None
                }
            },
            _ => None,
        }
    }

    /// Good / Degraded / Critical, from the rubric. `None` when unknown.
    #[must_use]
    pub fn health_band(&self) -> (band: Option<&'static str>)
        ensures
            match band {
                Some(b) => health_band_spec(*self) == Some(b@),
                None => health_band_spec(*self) is None,
            },
    {
        match self.capacity_basis() {
            Some((f, d)) => {
                if (f as u128) * 5 >= (d as u128) * 4 {
                    Some("Good")
                } else if (f as u128) * 2 >= d as u128 {
                    Some("Degraded")
                } else {
                    Some("Critical")
                }
            },
            None => None,
        }
    }

    #[must_use]
    pub fn capacity_unit(&self) -> (unit: &'static str)
        ensures
            unit@ == (if self.relative_capacity {
                ""@
            } else {
                " mWh"@
            }),
    {
        if self.relative_capacity {
            ""
        } else {
            " mWh"
        }
    }
}

/// Everything Advance scan learned about power, including the misses.
#[derive(Debug, Clone, PartialEq, Eq)]
pub struct BatteryProbe {
    pub readings: Vec<BatteryReading>,
    pub sources: Vec<SourceStatus>,
    pub temporary_file_written: bool,
    pub temporary_file_removed: bool,
    /// Set when the whole probe could not run, for example off Windows.
    pub probe_error: Option<&'static str>,
}

/// The reading wear is reported from: the first with sane capacities, else
/// the first.
pub open spec fn primary_index(readings: Seq<BatteryReading>) -> Option<int> {
    if exists|i: int| 0 <= i < readings.len() && (#[trigger] wear_basis(readings[i])) is Some {
        Some(
            choose|i: int|
                0 <= i < readings.len() && (#[trigger] wear_basis(readings[i])) is Some && forall|
                    j: int,
                | 0 <= j < i ==> wear_basis(readings[j]) is None,
        )
    } else if readings.len() > 0 {
        Some(0)
    } else {
        None
    }
}

/// The outcome recorded for `source`: the first status naming it, else not
/// queried.
pub open spec fn outcome_in(sources: Seq<SourceStatus>, source: BatterySource) -> SourceOutcome
    decreases sources.len(),
{
    if sources.len() == 0 {
        SourceOutcome::NotQueried
    } else if sources[0].source == source {
        sources[0].outcome
    } else {
        outcome_in(sources.drop_first(), source)
    }
}

impl BatteryProbe {
    /// A probe that could not run, saying why; no source was queried.
    #[must_use]
    pub fn unavailable(reason: &'static str) -> (p: Self)
        ensures
            p.readings@.len() == 0,
            p.sources@.len() == 5,
            forall|i: int|
                0 <= i < 5 ==> p.sources@[i] == (SourceStatus {
                    source: source_at(i),
                    outcome: SourceOutcome::NotQueried,
                }),
            !p.temporary_file_written,
            !p.temporary_file_removed,
            p.probe_error == Some(reason),
    {
        let all = all_sources();
        let mut sources: Vec<SourceStatus> = Vec::new();
        let mut i: usize = 0;
        while i < all.len()
            invariant
                i <= 5,
                all@.len() == 5,
                forall|k: int| 0 <= k < 5 ==> all@[k] == source_at(k),
                sources@.len() == i,
                forall|k: int|
                    0 <= k < i ==> sources@[k] == (SourceStatus {
                        source: source_at(k),
                        outcome: SourceOutcome::NotQueried,
                    }),
            decreases all.len() - i,
        {
            sources.push(SourceStatus { source: all[i], outcome: SourceOutcome::NotQueried });
            i += 1;
        }
        BatteryProbe {
            readings: Vec::new(),
            sources,
            temporary_file_written: false,
            temporary_file_removed: false,
            probe_error: Some(reason),
        }
    }

    /// True when at least one pack produced both capacities, which is the
    /// only state in which wear may be printed.
    #[must_use]
    pub fn has_capacity(&self) -> (r: bool)
        ensures
            r == exists|i: int|
                0 <= i < self.readings@.len() && (#[trigger] wear_basis(self.readings@[i])) is Some,
    {
        let mut i: usize = 0;
        while i < self.readings.len()
            invariant
                i <= self.readings@.len(),
                forall|k: int| 0 <= k < i ==> (#[trigger] wear_basis(self.readings@[k])) is None,
            decreases self.readings.len() - i,
        {
            if self.readings[i].capacity_basis().is_some() {
                return true;
            }
            i += 1;
        }
        false
    }

    #[must_use]
    pub fn primary(&self) -> (r: Option<&BatteryReading>)
        ensures
            match r {
                Some(x) => primary_index(self.readings@) is Some && *x
                    == self.readings@[primary_index(self.readings@).unwrap()],
                None => primary_index(self.readings@) is None,
            },
    {
        let mut i: usize = 0;
        while i < self.readings.len()
            invariant
                i <= self.readings@.len(),
                forall|k: int| 0 <= k < i ==> (#[trigger] wear_basis(self.readings@[k])) is None,
            decreases self.readings.len() - i,
        {
            if self.readings[i].capacity_basis().is_some() {
                proof {
                    let p = choose|j: int|
                        0 <= j < self.readings@.len() && (#[trigger] wear_basis(self.readings@[j])) is Some
                            && forall|m: int| 0 <= m < j ==> wear_basis(self.readings@[m]) is None;
                    assert(wear_basis(self.readings@[i as int]) is Some);
                    if p < i {
                        assert(wear_basis(self.readings@[p]) is None);
                    }
                    if p > i {
                        assert(wear_basis(self.readings@[i as int]) is None);
                    }
                }
                return Some(&self.readings[i]);
            }
            i += 1;
        }
        if self.readings.len() > 0 {
            Some(&self.readings[0])
        } else {
            None
        }
    }

    /// Battery is genuinely absent, as opposed to unreadable: the management
    /// class answered and reported no packs.
    #[must_use]
    pub fn reports_no_battery(&self) -> (r: bool)
        ensures
            r == (self.readings@.len() == 0 && exists|i: int|
                0 <= i < self.sources@.len() && (#[trigger] self.sources@[i]).source
                    == BatterySource::ManagementClass && self.sources@[i].outcome
                    == SourceOutcome::Reported),
    {
        if self.readings.len() != 0 {
            return false;
        }
        let mut i: usize = 0;
        while i < self.sources.len()
            invariant
                i <= self.sources@.len(),
                self.readings@.len() == 0,
                forall|k: int|
                    0 <= k < i ==> !((#[trigger] self.sources@[k]).source
                        == BatterySource::ManagementClass && self.sources@[k].outcome
                        == SourceOutcome::Reported),
            decreases self.sources.len() - i,
        {
            let s = self.sources[i];
            if s.source == BatterySource::ManagementClass && s.outcome == SourceOutcome::Reported {
                assert(self.sources@[i as int] == s);
                return true;
            }
            i += 1;
        }
        false
    }

    /// The outcome recorded for a source; not queried when none is.
    #[must_use]
    pub fn outcome_for(&self, source: BatterySource) -> (o: SourceOutcome)
        ensures
            o == outcome_in(self.sources@, source),
    {
        let mut i: usize = 0;
        assert(self.sources@.skip(0) =~= self.sources@);
        while i < self.sources.len()
            invariant
                i <= self.sources@.len(),
                outcome_in(self.sources@, source) == outcome_in(self.sources@.skip(i as int), source),
            decreases self.sources.len() - i,
        {
            assert(self.sources@.skip(i as int).drop_first() =~= self.sources@.skip(i + 1));
            assert(self.sources@.skip(i as int)[0] == self.sources@[i as int]);
            if self.sources[i].source == source {
                return self.sources[i].outcome;
            }
            i += 1;
        }
        SourceOutcome::NotQueried
    }

    /// The relative-units note, when any pack reports relative units.
    #[must_use]
    pub fn relative_capacity_note(&self) -> (note: Option<&'static str>)
        ensures
            match note {
                Some(n) => n@ == RELATIVE_CAPACITY_NOTE@ && exists|i: int|
                    0 <= i < self.readings@.len() && (#[trigger] self.readings@[i]).relative_capacity,
                None => forall|i: int|
                    0 <= i < self.readings@.len() ==> !(#[trigger] self.readings@[i]).relative_capacity,
            },
    {
        let mut i: usize = 0;
        while i < self.readings.len()
            invariant
                i <= self.readings@.len(),
                forall|k: int| 0 <= k < i ==> !(#[trigger] self.readings@[k]).relative_capacity,
            decreases self.readings.len() - i,
        {
            if self.readings[i].relative_capacity {
                return Some(RELATIVE_CAPACITY_NOTE);
            }
            i += 1;
        }
        None
    }
}

pub type Values = Map<(Seq<char>, int, Seq<char>), Seq<char>>;

/// A positive whole number.
pub open spec fn num(m: Values, section: Seq<char>, index: int, name: Seq<char>) -> Option<u64> {
    match lookup(m, section, index, name) {
        Some(v) => match parse_u64_spec(v) {
            Some(n) => if n > 0 {
                Some(n)
            } else {
                None
            },
            None => None,
        },
        None => None,
    }
}

/// A number from the first source that has it, in search order, with that
/// source.
pub open spec fn first_num(m: Values, index: int, name: Seq<char>) -> (Option<u64>, Option<BatterySource>) {
    if num(m, "battery"@, index, name) is Some {
        (num(m, "battery"@, index, name), Some(BatterySource::ManagementClass))
    } else if num(m, "static"@, index, name) is Some {
        (num(m, "static"@, index, name), Some(BatterySource::StaticData))
    } else if num(m, "full"@, index, name) is Some {
        (num(m, "full"@, index, name), Some(BatterySource::FullChargedCapacity))
    } else if num(m, "cycle"@, index, name) is Some {
        (num(m, "cycle"@, index, name), Some(BatterySource::CycleCount))
    } else if num(m, "firmware"@, index, name) is Some {
        (num(m, "firmware"@, index, name), Some(BatterySource::FirmwareReport))
    } else {
        (None, None)
    }
}

/// A text field from the battery class, the static data or the firmware
/// report, whichever first has a real value.
pub open spec fn text3(m: Values, index: int, name: Seq<char>) -> Option<Seq<char>> {
    if text_value(lookup(m, "battery"@, index, name), true) is Some {
        text_value(lookup(m, "battery"@, index, name), true)
    } else if text_value(lookup(m, "static"@, index, name), true) is Some {
        text_value(lookup(m, "static"@, index, name), true)
    } else {
        text_value(lookup(m, "firmware"@, index, name), true)
    }
}

pub open spec fn chemistry_spec(code: u64) -> Option<Seq<char>> {
    if code == 1 {
        Some("Other"@)
    } else if code == 2 {
        Some("Unknown"@)
    } else if code == 3 {
        Some("Lead acid"@)
    } else if code == 4 {
        Some("Nickel cadmium"@)
    } else if code == 5 {
        Some("Nickel metal hydride"@)
    } else if code == 6 {
        Some("Lithium-ion"@)
    } else if code == 7 {
        Some("Zinc air"@)
    } else if code == 8 {
        Some("Lithium polymer"@)
    } else {
        None
    }
}

pub open spec fn status_spec(code: u64) -> Option<Seq<char>> {
    if code == 1 {
        Some("Discharging"@)
    } else if code == 2 {
        Some("On mains power"@)
    } else if code == 3 {
        Some("Fully charged"@)
    } else if code == 4 {
        Some("Low"@)
    } else if code == 5 {
        Some("Critical"@)
    } else if code == 6 {
        Some("Charging"@)
    } else if code == 7 {
        Some("Charging and high"@)
    } else if code == 8 {
        Some("Charging and low"@)
    } else if code == 9 {
        Some("Charging and critical"@)
    } else if code == 11 {
        Some("Partially charged"@)
    } else {
        None
    }
}

pub open spec fn small(n: Option<u64>) -> Option<u32> {
    match n {
        Some(v) => if v <= u32::MAX {
            Some(v as u32)
        } else {
            None
        },
        None => None,
    }
}

/// Whether index `i` names a pack: present, or with either capacity.
pub open spec fn names_pack(m: Values, i: int) -> bool {
    flag_spec(m, "battery"@, i, "present"@) || first_num(m, i, "designed_capacity"@).0 is Some
        || first_num(m, i, "full_charge_capacity"@).0 is Some
}

pub open spec fn pack_count(m: Values, n: nat) -> nat
    decreases n,
{
    if n == 0 {
        0
    } else {
        pack_count(m, (n - 1) as nat) + if names_pack(m, n - 1) {
            1nat
        } else {
            0nat
        }
    }
}

/// `r` is the reading for pack `index`.
pub open spec fn reading_at(r: BatteryReading, m: Values, index: int) -> bool {
    let capabilities = match num(m, "static"@, index, "capabilities"@) {
        Some(c) => c,
        None => 0,
    };
    &&& r.present
    &&& opt_view(r.device_name) == (if text3(m, index, "device_name"@) is Some {
        text3(m, index, "device_name"@)
    } else {
        lookup(m, "battery"@, index, "name"@)
    })
    &&& opt_view(r.manufacturer) == text3(m, index, "manufacturer"@)
    &&& opt_view(r.serial_number) == text3(m, index, "serial_number"@)
    &&& opt_view(r.chemistry) == (if text3(m, index, "chemistry"@) is Some {
        text3(m, index, "chemistry"@)
    } else {
        match num(m, "battery"@, index, "chemistry_code"@) {
            Some(code) => chemistry_spec(code),
            None => None,
        }
    })
    &&& opt_view(r.manufacture_date) == text3(m, index, "manufacture_date"@)
    &&& r.designed_capacity == first_num(m, index, "designed_capacity"@).0
    &&& r.capacity_source == first_num(m, index, "designed_capacity"@).1
    &&& r.full_charge_capacity == first_num(m, index, "full_charge_capacity"@).0
    &&& r.cycle_count == small(first_num(m, index, "cycle_count"@).0)
    &&& r.charge_percent == (match small(num(m, "battery"@, index, "charge_percent"@)) {
        Some(p) => if p <= 100 {
            Some(p)
        } else {
            None
        },
        None => None,
    })
    &&& r.design_voltage_mv == small(num(m, "battery"@, index, "design_voltage_mv"@))
    &&& opt_view(r.status_text) == (match num(m, "battery"@, index, "battery_status_code"@) {
        Some(code) => status_spec(code),
        None => None,
    })
    &&& r.relative_capacity == (capabilities & 0x4000_0000 != 0)
}

pub open spec fn battery_sections() -> Seq<Seq<char>> {
    seq!["battery"@, "static"@, "full"@, "cycle"@, "firmware"@]
}

pub open spec fn battery_names() -> Seq<Seq<char>> {
    seq![
        "source_status"@,
        "record_count"@,
        "present"@,
        "name"@,
        "device_name"@,
        "manufacturer"@,
        "device_id"@,
        "serial_number"@,
        "chemistry"@,
        "chemistry_code"@,
        "manufacture_date"@,
        "battery_status_code"@,
        "charge_percent"@,
        "design_voltage_mv"@,
        "designed_capacity"@,
        "full_charge_capacity"@,
        "cycle_count"@,
        "capabilities"@,
        "temporary_file_written"@,
        "temporary_file_removed"@,
    ]
}

/// `p` is what the battery protocol output `text` says.
pub open spec fn battery_probe_of(p: BatteryProbe, text: Seq<char>) -> bool {
    let m = parse_spec(
        text,
        MAX_PROTOCOL_LINES as nat,
        MAX_BATTERY_INDEX as nat,
        MAX_VALUE_BYTES as nat,
        battery_sections(),
        battery_names(),
        false,
    );
    &&& p.readings@.len() == pack_count(m, (MAX_BATTERY_INDEX + 1) as nat)
    &&& forall|i: int| 0 <= i < p.readings@.len() ==> reading_at(#[trigger] p.readings@[i], m, i)
    &&& p.sources@.len() == 5
    &&& forall|i: int|
        0 <= i < 5 ==> p.sources@[i] == (SourceStatus {
            source: source_at(i),
            outcome: outcome_of(wire_outcome(lookup(m, source_at(i).section_text(), 0, "source_status"@))),
        })
    &&& p.temporary_file_written == flag_spec(m, "firmware"@, 0, "temporary_file_written"@)
    &&& p.temporary_file_removed == flag_spec(m, "firmware"@, 0, "temporary_file_removed"@)
    &&& p.probe_error is None
}

fn number(values: &ProtocolValues, section: &str, index: usize, name: &str) -> (r: Option<u64>)
    ensures
        r == num(values.map(), section@, index as int, name@),
{
    match values.number(section, index, name) {
        Some(n) => if n > 0 {
            Some(n)
        } else {
            None
        },
        None => None,
    }
}

fn first_number(values: &ProtocolValues, index: usize, name: &str) -> (r: (Option<u64>, Option<BatterySource>))
    ensures
        r == first_num(values.map(), index as int, name@),
{
    match number(values, "battery", index, name) {
        Some(v) => {
            return (Some(v), Some(BatterySource::ManagementClass));
        },
        None => {},
    }
    match number(values, "static", index, name) {
        Some(v) => {
            return (Some(v), Some(BatterySource::StaticData));
        },
        None => {},
    }
    match number(values, "full", index, name) {
        Some(v) => {
            return (Some(v), Some(BatterySource::FullChargedCapacity));
        },
        None => {},
    }
    match number(values, "cycle", index, name) {
        Some(v) => {
            return (Some(v), Some(BatterySource::CycleCount));
        },
        None => {},
    }
    match number(values, "firmware", index, name) {
        Some(v) => (Some(v), Some(BatterySource::FirmwareReport)),
        None => (None, None),
    }
}

fn text(values: &ProtocolValues, index: usize, name: &str) -> (r: Option<String>)
    ensures
        opt_view(r) == text3(values.map(), index as int, name@),
{
    match values.text("battery", index, name, true) {
        Some(v) => {
            return Some(v);
        },
        None => {},
    }
    match values.text("static", index, name, true) {
        Some(v) => {
            return Some(v);
        },
        None => {},
    }
    values.text("firmware", index, name, true)
}

fn chemistry_name(values: &ProtocolValues, index: usize) -> (r: Option<String>)
    ensures
        opt_view(r) == (match num(values.map(), "battery"@, index as int, "chemistry_code"@) {
            Some(code) => chemistry_spec(code),
            None => None,
        }),
{
    let code = match number(values, "battery", index, "chemistry_code") {
        Some(c) => c,
        None => {
            return None;
        },
    };
    let name = if code == 1 {
        "Other"
    } else if code == 2 {
        "Unknown"
    } else if code == 3 {
        "Lead acid"
    } else if code == 4 {
        "Nickel cadmium"
    } else if code == 5 {
        "Nickel metal hydride"
    } else if code == 6 {
        "Lithium-ion"
    } else if code == 7 {
        "Zinc air"
    } else if code == 8 {
        "Lithium polymer"
    } else {
        return None;
    };
    Some(owned(name))
}

fn status_name(values: &ProtocolValues, index: usize) -> (r: Option<String>)
    ensures
        opt_view(r) == (match num(values.map(), "battery"@, index as int, "battery_status_code"@) {
            Some(code) => status_spec(code),
            None => None,
        }),
{
    let code = match number(values, "battery", index, "battery_status_code") {
        Some(c) => c,
        None => {
            return None;
        },
    };
    let name = if code == 1 {
        "Discharging"
    } else if code == 2 {
        "On mains power"
    } else if code == 3 {
        "Fully charged"
    } else if code == 4 {
        "Low"
    } else if code == 5 {
        "Critical"
    } else if code == 6 {
        "Charging"
    } else if code == 7 {
        "Charging and high"
    } else if code == 8 {
        "Charging and low"
    } else if code == 9 {
        "Charging and critical"
    } else if code == 11 {
        "Partially charged"
    } else {
        return None;
    };
    Some(owned(name))
}

fn to_u32(n: Option<u64>) -> (r: Option<u32>)
    ensures
        r == small(n),
{
    match n {
        Some(v) => if v <= 0xffff_ffff {
            Some(v as u32)
        } else {
            None
        },
        None => None,
    }
}

fn reading(values: &ProtocolValues, index: usize) -> (r: BatteryReading)
    ensures
        reading_at(r, values.map(), index as int),
{
    let capabilities = match number(values, "static", index, "capabilities") {
        Some(c) => c,
        None => 0,
    };
    let relative_capacity = capabilities & 0x4000_0000 != 0;
    let (designed_capacity, capacity_source) = first_number(values, index, "designed_capacity");
    let (full_charge_capacity, _) = first_number(values, index, "full_charge_capacity");
    let (cycle_count, _) = first_number(values, index, "cycle_count");
    let device_name = match text(values, index, "device_name") {
        Some(v) => Some(v),
        None => match values.get("battery", index, "name") {
            Some(v) => Some(v.clone()),
            None => None,
        },
    };
    let chemistry = match text(values, index, "chemistry") {
        Some(v) => Some(v),
        None => chemistry_name(values, index),
    };
    let charge_percent = match to_u32(number(values, "battery", index, "charge_percent")) {
        Some(p) => if p <= 100 {
            Some(p)
        } else {
            None
        },
        None => None,
    };
    BatteryReading {
        present: true,
        device_name,
        manufacturer: text(values, index, "manufacturer"),
        serial_number: text(values, index, "serial_number"),
        chemistry,
        manufacture_date: text(values, index, "manufacture_date"),
        designed_capacity,
        full_charge_capacity,
        cycle_count: to_u32(cycle_count),
        charge_percent,
        design_voltage_mv: to_u32(number(values, "battery", index, "design_voltage_mv")),
        status_text: status_name(values, index),
        relative_capacity,
        capacity_source,
    }
}

fn build_readings(values: &ProtocolValues) -> (out: Vec<BatteryReading>)
    ensures
        out@.len() == pack_count(values.map(), (MAX_BATTERY_INDEX + 1) as nat),
        forall|i: int| 0 <= i < out@.len() ==> reading_at(#[trigger] out@[i], values.map(), i),
{
    let mut count: usize = 0;
    let mut index: usize = 0;
    while index <= MAX_BATTERY_INDEX
        invariant
            index <= MAX_BATTERY_INDEX + 1,
            count == pack_count(values.map(), index as nat),
            count <= index,
        decreases MAX_BATTERY_INDEX + 1 - index,
    {
        if values.flag("battery", index, "present") || first_number(
            values,
            index,
            "designed_capacity",
        ).0.is_some() || first_number(values, index, "full_charge_capacity").0.is_some() {
            count += 1;
        }
        index += 1;
    }
    let mut out: Vec<BatteryReading> = Vec::new();
    let mut i: usize = 0;
    while i < count
        invariant
            i <= count,
            count == pack_count(values.map(), (MAX_BATTERY_INDEX + 1) as nat),
            out@.len() == i,
            forall|k: int| 0 <= k < i ==> reading_at(#[trigger] out@[k], values.map(), k),
        decreases count - i,
    {
        out.push(reading(values, i));
        i += 1;
    }
    out
}

/// Parse the probe protocol.
#[must_use]
pub fn parse_probe(text: &str) -> (p: BatteryProbe)
    ensures
        battery_probe_of(p, text@),
{
    let sections: Vec<&str> = vec!["battery", "static", "full", "cycle", "firmware"];
    let names: Vec<&str> = vec![
        "source_status",
        "record_count",
        "present",
        "name",
        "device_name",
        "manufacturer",
        "device_id",
        "serial_number",
        "chemistry",
        "chemistry_code",
        "manufacture_date",
        "battery_status_code",
        "charge_percent",
        "design_voltage_mv",
        "designed_capacity",
        "full_charge_capacity",
        "cycle_count",
        "capabilities",
        "temporary_file_written",
        "temporary_file_removed",
    ];
    proof {
        assert(strs(sections@) =~= battery_sections());
        assert(strs(names@) =~= battery_names());
    }
    let values = parse_protocol(
        text,
        MAX_PROTOCOL_LINES,
        MAX_BATTERY_INDEX,
        MAX_VALUE_BYTES,
        sections.as_slice(),
        names.as_slice(),
        false,
    );
    let all = all_sources();
    let mut sources: Vec<SourceStatus> = Vec::new();
    let mut i: usize = 0;
    while i < all.len()
        invariant
            i <= 5,
            all@.len() == 5,
            forall|k: int| 0 <= k < 5 ==> all@[k] == source_at(k),
            sources@.len() == i,
            forall|k: int|
                0 <= k < i ==> sources@[k] == (SourceStatus {
                    source: source_at(k),
                    outcome: outcome_of(
                        wire_outcome(lookup(values.map(), source_at(k).section_text(), 0, "source_status"@)),
                    ),
                }),
        decreases all.len() - i,
    {
        let source = all[i];
        let outcome = SourceOutcome::from_wire(values.outcome(source.section()));
        sources.push(SourceStatus { source, outcome });
        i += 1;
    }
    BatteryProbe {
        readings: build_readings(&values),
        temporary_file_written: values.flag("firmware", 0, "temporary_file_written"),
        temporary_file_removed: values.flag("firmware", 0, "temporary_file_removed"),
        sources,
        probe_error: None,
    }
}

/// A battery whose design capacity is unknown never gets a health band:
/// a charge level is never taken for health.
pub proof fn no_design_capacity_no_band(r: BatteryReading)
    requires
        r.designed_capacity is None,
    ensures
        health_band_spec(r) is None,
        wear_basis(r) is None,
{
}

} // verus!
