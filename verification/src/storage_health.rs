//! Storage identity and SMART collection for Advance scan: power-on hours,
//! wear, spare and the firmware predict-failure bit. Collection is
//! read-only; the script never names a write, erase, TRIM, format, sanitize
//! or firmware-update command. Nothing here estimates remaining life, and a
//! missing spare is not assumed to be 100%.

use vstd::prelude::*;
use crate::hardware_diagnostics_v1::CriticalFault;
use crate::probe_protocol::{
    flag_spec, lookup, opt_view, parse_protocol, parse_spec, strs, text_value, wire_outcome,
    ProtocolValues, WireOutcome,
};
use crate::numtext::{parse_u32_spec, parse_u64_spec};
use crate::text::{eq_str, lower_seq, lower_vec, owned};

verus! {

pub const MAX_PROTOCOL_LINES: usize = 768;
pub const MAX_VALUE_BYTES: usize = 2048;
pub const MAX_INDEX: usize = 16;

/// Reads disk identity, the physical disk class, reliability counters,
/// predict-failure status and ATA SMART attributes. Read-only.
pub const STORAGE_SCRIPT: &'static str = r#"
$ErrorActionPreference = 'Stop'
$ProgressPreference = 'SilentlyContinue'

function Emit-Value([string]$section, [int]$index, [string]$name, $value) {
    if ($null -eq $value) { return }
    $text = [Convert]::ToString($value, [Globalization.CultureInfo]::InvariantCulture)
    if ($null -eq $text) { return }
    $text = $text.Trim()
    if ($text.Length -eq 0) { return }
    $bytes = [Text.Encoding]::UTF8.GetBytes($text)
    $hex = -join ($bytes | ForEach-Object { $_.ToString('x2') })
    [Console]::Out.WriteLine("$section`t$index`t$name`t$hex")
}

function Emit-Status([string]$section, $errorRecord) {
    $status = 'collection_error'
    if ($null -ne $errorRecord) {
        $hresult = $errorRecord.Exception.HResult
        $native = $errorRecord.Exception.NativeErrorCode
        if (($hresult -eq -2147024891) -or ($native -eq 5) -or ("$($errorRecord.Exception.Message)" -match 'Access is denied|UnauthorizedAccess')) { $status = 'permission_denied' }
        elseif ($errorRecord.Exception -is [Management.Automation.CommandNotFoundException]) { $status = 'unsupported' }
        elseif ("$($errorRecord.Exception.Message)" -match 'not supported|Invalid class|Not found') { $status = 'unsupported' }
    }
    Emit-Value $section 0 'source_status' $status
}

function Bus-Label([int]$code) {
    switch ($code) {
        3  { return 'ATA' }
        7  { return 'USB' }
        8  { return 'RAID' }
        10 { return 'SAS' }
        11 { return 'SATA' }
        12 { return 'SD' }
        17 { return 'NVMe' }
        default { return $null }
    }
}

function Media-Label([int]$code) {
    switch ($code) {
        3 { return 'HDD' }
        4 { return 'SSD' }
        5 { return 'SCM' }
        default { return $null }
    }
}

try {
    $identity = [Security.Principal.WindowsIdentity]::GetCurrent()
    $principal = New-Object Security.Principal.WindowsPrincipal($identity)
    $admin = $principal.IsInRole([Security.Principal.WindowsBuiltInRole]::Administrator)
    Emit-Value 'session' 0 'source_status' 'reported'
    Emit-Value 'session' 0 'elevated' $admin
} catch {
    Emit-Value 'session' 0 'source_status' 'reported'
    Emit-Value 'session' 0 'elevated' $false
}

try {
    $items = @(Get-CimInstance -ClassName Win32_DiskDrive -Property Model,SerialNumber,FirmwareRevision,Size,InterfaceType,MediaType,PNPDeviceID,Index,Status -ErrorAction Stop)
    Emit-Value 'disk' 0 'source_status' 'reported'
    Emit-Value 'disk' 0 'record_count' $items.Count
    for ($i = 0; $i -lt $items.Count; $i++) {
        if ($i -ge 16) { break }
        $d = $items[$i]
        Emit-Value 'disk' $i 'present' $true
        Emit-Value 'disk' $i 'model' $d.Model
        Emit-Value 'disk' $i 'serial_number' $d.SerialNumber
        Emit-Value 'disk' $i 'firmware_revision' $d.FirmwareRevision
        Emit-Value 'disk' $i 'capacity_bytes' $d.Size
        Emit-Value 'disk' $i 'interface_type' $d.InterfaceType
        Emit-Value 'disk' $i 'media_type' $d.MediaType
        Emit-Value 'disk' $i 'status' $d.Status
        if ("$($d.InterfaceType) $($d.MediaType) $($d.PNPDeviceID)" -match 'USB|Removable') {
            Emit-Value 'disk' $i 'removable' $true
        }
    }
} catch { Emit-Status 'disk' $_ }

try {
    $disks = @(Get-PhysicalDisk -ErrorAction Stop)
    Emit-Value 'physical' 0 'source_status' 'reported'
    Emit-Value 'physical' 0 'record_count' $disks.Count
    $reliabilityReported = $false
    for ($i = 0; $i -lt $disks.Count; $i++) {
        if ($i -ge 16) { break }
        $p = $disks[$i]
        Emit-Value 'physical' $i 'present' $true
        Emit-Value 'physical' $i 'model' $p.FriendlyName
        Emit-Value 'physical' $i 'serial_number' $p.SerialNumber
        Emit-Value 'physical' $i 'firmware_revision' $p.FirmwareVersion
        Emit-Value 'physical' $i 'capacity_bytes' $p.Size
        $bus = Bus-Label ([int]$p.BusType)
        if ($bus) { Emit-Value 'physical' $i 'bus_type' $bus }
        $media = Media-Label ([int]$p.MediaType)
        if ($media) { Emit-Value 'physical' $i 'media_kind' $media }
        if ([int]$p.BusType -eq 7 -or [int]$p.BusType -eq 12 -or [int]$p.BusType -eq 15) {
            Emit-Value 'physical' $i 'removable' $true
        }
        if ($null -ne $p.SpindleSpeed -and [int64]$p.SpindleSpeed -gt 1) {
            Emit-Value 'physical' $i 'rotational' $true
        } elseif ($media -eq 'HDD') {
            Emit-Value 'physical' $i 'rotational' $true
        } elseif ($media -eq 'SSD' -or $bus -eq 'NVMe') {
            Emit-Value 'physical' $i 'rotational' $false
        }
        Emit-Value 'physical' $i 'health_status' $p.HealthStatus
        try {
            $r = $p | Get-StorageReliabilityCounter -ErrorAction Stop
            if (-not $reliabilityReported) {
                Emit-Value 'reliability' 0 'source_status' 'reported'
                $reliabilityReported = $true
            }
            Emit-Value 'reliability' $i 'present' $true
            if ($null -ne $r.Wear) { Emit-Value 'reliability' $i 'percentage_used' $r.Wear }
            if ($null -ne $r.Temperature) { Emit-Value 'reliability' $i 'temperature_c' $r.Temperature }
            if ($null -ne $r.PowerOnHours) { Emit-Value 'reliability' $i 'power_on_hours' $r.PowerOnHours }
            if ($null -ne $r.StartStopCycleCount) { Emit-Value 'reliability' $i 'power_cycles' $r.StartStopCycleCount }
            if ($null -ne $r.ReadErrorsUncorrected) { Emit-Value 'reliability' $i 'read_errors_uncorrected' $r.ReadErrorsUncorrected }
            if ($null -ne $r.WriteErrorsUncorrected) { Emit-Value 'reliability' $i 'write_errors_uncorrected' $r.WriteErrorsUncorrected }
        } catch {
            if (-not $reliabilityReported) { Emit-Status 'reliability' $_; $reliabilityReported = $true }
        }
    }
    if (-not $reliabilityReported) {
        Emit-Value 'reliability' 0 'source_status' 'unsupported'
    }
} catch { Emit-Status 'physical' $_; Emit-Status 'reliability' $_ }

try {
    $items = @(Get-CimInstance -Namespace 'root/wmi' -ClassName MSStorageDriver_FailurePredictStatus -ErrorAction Stop)
    Emit-Value 'predict' 0 'source_status' 'reported'
    Emit-Value 'predict' 0 'record_count' $items.Count
    for ($i = 0; $i -lt $items.Count; $i++) {
        if ($i -ge 16) { break }
        $s = $items[$i]
        Emit-Value 'predict' $i 'present' $true
        Emit-Value 'predict' $i 'predicts_failure' ([bool]$s.PredictFailure)
        Emit-Value 'predict' $i 'reason' $s.Reason
        Emit-Value 'predict' $i 'instance' $s.InstanceName
    }
} catch { Emit-Status 'predict' $_ }

try {
    $items = @(Get-CimInstance -Namespace 'root/wmi' -ClassName MSStorageDriver_FailurePredictData -ErrorAction Stop)
    Emit-Value 'smartdata' 0 'source_status' 'reported'
    for ($i = 0; $i -lt $items.Count; $i++) {
        if ($i -ge 16) { break }
        $s = $items[$i]
        $vs = $s.VendorSpecific
        if ($null -eq $vs) { continue }
        Emit-Value 'smartdata' $i 'present' $true
        for ($a = 0; $a -lt 30; $a++) {
            $off = 2 + ($a * 12)
            if (($off + 11) -ge $vs.Length) { break }
            $id = [int]$vs[$off]
            if ($id -eq 0) { continue }
            $raw = [uint64]$vs[$off + 5] + ([uint64]$vs[$off + 6] * 256) + ([uint64]$vs[$off + 7] * 65536) + ([uint64]$vs[$off + 8] * 16777216)
            if ($id -eq 5) { Emit-Value 'smartdata' $i 'reallocated_sectors' $raw }
            if ($id -eq 9) { Emit-Value 'smartdata' $i 'power_on_hours' $raw }
            if ($id -eq 12) { Emit-Value 'smartdata' $i 'power_cycles' $raw }
            if ($id -eq 197) { Emit-Value 'smartdata' $i 'pending_sectors' $raw }
            if ($id -eq 194 -or $id -eq 190) {
                $temp = [int]($raw -band 0xFF)
                if ($temp -gt 0 -and $temp -lt 127) { Emit-Value 'smartdata' $i 'temperature_c' $temp }
            }
        }
    }
} catch { Emit-Status 'smartdata' $_ }
"#;

/// Which Windows class a storage value came from.
#[derive(Debug, Clone, Copy, PartialEq, Eq, Structural)]
#[non_exhaustive]
pub enum StorageSource {
    DiskIdentity,
    PhysicalDisk,
    ReliabilityCounter,
    PredictFailure,
    SmartAttributes,
}

impl StorageSource {
    pub open spec fn label_text(self) -> Seq<char> {
        match self {
            StorageSource::DiskIdentity => "Disk identity"@,
            StorageSource::PhysicalDisk => "Physical disk class"@,
            StorageSource::ReliabilityCounter => "Storage reliability counters"@,
            StorageSource::PredictFailure => "SMART predict-failure"@,
            StorageSource::SmartAttributes => "ATA SMART attributes"@,
        }
    }

    #[must_use]
    pub fn label(self) -> (s: &'static str)
        ensures
            s@ == self.label_text(),
    {
        match self {
            StorageSource::DiskIdentity => "Disk identity",
            StorageSource::PhysicalDisk => "Physical disk class",
            StorageSource::ReliabilityCounter => "Storage reliability counters",
            StorageSource::PredictFailure => "SMART predict-failure",
            StorageSource::SmartAttributes => "ATA SMART attributes",
        }
    }

    pub open spec fn section_text(self) -> Seq<char> {
        match self {
            StorageSource::DiskIdentity => "disk"@,
            StorageSource::PhysicalDisk => "physical"@,
            StorageSource::ReliabilityCounter => "reliability"@,
            StorageSource::PredictFailure => "predict"@,
            StorageSource::SmartAttributes => "smartdata"@,
        }
    }

    fn section(self) -> (s: &'static str)
        ensures
            s@ == self.section_text(),
    {
        match self {
            StorageSource::DiskIdentity => "disk",
            StorageSource::PhysicalDisk => "physical",
            StorageSource::ReliabilityCounter => "reliability",
            StorageSource::PredictFailure => "predict",
            StorageSource::SmartAttributes => "smartdata",
        }
    }
}

/// Every source, in report order.
pub open spec fn source_at(i: int) -> StorageSource {
    if i == 0 {
        StorageSource::DiskIdentity
    } else if i == 1 {
        StorageSource::PhysicalDisk
    } else if i == 2 {
        StorageSource::ReliabilityCounter
    } else if i == 3 {
        StorageSource::PredictFailure
    } else {
        StorageSource::SmartAttributes
    }
}

fn all_sources() -> (v: Vec<StorageSource>)
    ensures
        v@.len() == 5,
        forall|i: int| 0 <= i < 5 ==> v@[i] == source_at(i),
{
    vec![
        StorageSource::DiskIdentity,
        StorageSource::PhysicalDisk,
        StorageSource::ReliabilityCounter,
        StorageSource::PredictFailure,
        StorageSource::SmartAttributes,
    ]
}

/// Why a source did or did not answer.
#[derive(Debug, Clone, Copy, PartialEq, Eq, Structural)]
#[non_exhaustive]
pub enum SourceOutcome {
    Reported,
    NotQueried,
    PermissionDenied,
    Unsupported,
    CollectionError,
}

pub open spec fn outcome_of(w: WireOutcome) -> SourceOutcome {
    match w {
        WireOutcome::Reported => SourceOutcome::Reported,
        WireOutcome::NotQueried => SourceOutcome::NotQueried,
        WireOutcome::PermissionDenied => SourceOutcome::PermissionDenied,
        WireOutcome::Unsupported => SourceOutcome::Unsupported,
        WireOutcome::CollectionError => SourceOutcome::CollectionError,
    }
}

impl SourceOutcome {
    pub open spec fn customer_text(self) -> Seq<char> {
        match self {
            SourceOutcome::Reported => "Answered"@,
            SourceOutcome::NotQueried => "Not queried on this PC"@,
            SourceOutcome::PermissionDenied => "Refused without administrator rights"@,
            SourceOutcome::Unsupported => "Not available on this PC"@,
            SourceOutcome::CollectionError => "Windows returned an error"@,
        }
    }

    #[must_use]
    pub fn customer_label(self) -> (s: &'static str)
        ensures
            s@ == self.customer_text(),
    {
        match self {
            SourceOutcome::Reported => "Answered",
            SourceOutcome::NotQueried => "Not queried on this PC",
            SourceOutcome::PermissionDenied => "Refused without administrator rights",
            SourceOutcome::Unsupported => "Not available on this PC",
            SourceOutcome::CollectionError => "Windows returned an error",
        }
    }

    fn from_wire(w: WireOutcome) -> (o: Self)
        ensures
            o == outcome_of(w),
    {
        match w {
            WireOutcome::Reported => SourceOutcome::Reported,
            WireOutcome::NotQueried => SourceOutcome::NotQueried,
            WireOutcome::PermissionDenied => SourceOutcome::PermissionDenied,
            WireOutcome::Unsupported => SourceOutcome::Unsupported,
            WireOutcome::CollectionError => SourceOutcome::CollectionError,
        }
    }
}

#[derive(Debug, Clone, Copy, PartialEq, Eq, Structural)]
pub struct SourceStatus {
    pub source: StorageSource,
    pub outcome: SourceOutcome,
}

/// The status of every source, none queried.
pub open spec fn none_queried(sources: Seq<SourceStatus>) -> bool {
    &&& sources.len() == 5
    &&& forall|i: int|
        0 <= i < 5 ==> sources[i] == (SourceStatus {
            source: source_at(i),
            outcome: SourceOutcome::NotQueried,
        })
}

/// The status of every source, as its status line reports.
pub open spec fn statuses_from(sources: Seq<SourceStatus>, m: Map<(Seq<char>, int, Seq<char>), Seq<char>>) -> bool {
    &&& sources.len() == 5
    &&& forall|i: int|
        0 <= i < 5 ==> sources[i] == (SourceStatus {
            source: source_at(i),
            outcome: outcome_of(wire_outcome(lookup(m, source_at(i).section_text(), 0, "source_status"@))),
        })
}

fn unqueried_sources() -> (sources: Vec<SourceStatus>)
    ensures
        none_queried(sources@),
{
    let all = all_sources();
    let mut sources: Vec<SourceStatus> = Vec::new();
    let mut i: usize = 0;
    while i < all.len()
        invariant
            i <= 5,
            all@.len() == 5,
            forall|k: int| 0 <= k < 5 ==> all@[k] == source_at(k),
            sources@.len() == i,
            forall|k: int|
                0 <= k < i ==> sources@[k] == (SourceStatus {
                    source: source_at(k),
                    outcome: SourceOutcome::NotQueried,
                }),
        decreases all.len() - i,
    {
        sources.push(SourceStatus { source: all[i], outcome: SourceOutcome::NotQueried });
        i += 1;
    }
    sources
}

fn reported_sources(values: &ProtocolValues) -> (sources: Vec<SourceStatus>)
    ensures
        statuses_from(sources@, values.map()),
{
    let all = all_sources();
    let mut sources: Vec<SourceStatus> = Vec::new();
    let mut i: usize = 0;
    while i < all.len()
        invariant
            i <= 5,
            all@.len() == 5,
            forall|k: int| 0 <= k < 5 ==> all@[k] == source_at(k),
            sources@.len() == i,
            forall|k: int|
                0 <= k < i ==> sources@[k] == (SourceStatus {
                    source: source_at(k),
                    outcome: outcome_of(
                        wire_outcome(lookup(values.map(), source_at(k).section_text(), 0, "source_status"@)),
                    ),
                }),
        decreases all.len() - i,
    {
        let source = all[i];
        let outcome = SourceOutcome::from_wire(values.outcome(source.section()));
        sources.push(SourceStatus { source, outcome });
        i += 1;
    }
    sources
}

/// The outcome recorded for a source; not queried when none is.
pub open spec fn outcome_in(sources: Seq<SourceStatus>, source: StorageSource) -> SourceOutcome
    decreases sources.len(),
{
    if sources.len() == 0 {
        SourceOutcome::NotQueried
    } else if sources[0].source == source {
        sources[0].outcome
    } else {
        outcome_in(sources.drop_first(), source)
    }
}

fn find_outcome(sources: &Vec<SourceStatus>, source: StorageSource) -> (o: SourceOutcome)
    ensures
        o == outcome_in(sources@, source),
{
    let mut i: usize = 0;
    assert(sources@.skip(0) =~= sources@);
    while i < sources.len()
        invariant
            i <= sources@.len(),
            outcome_in(sources@, source) == outcome_in(sources@.skip(i as int), source),
        decreases sources.len() - i,
    {
        assert(sources@.skip(i as int).drop_first() =~= sources@.skip(i + 1));
        assert(sources@.skip(i as int)[0] == sources@[i as int]);
        if sources[i].source == source {
            return sources[i].outcome;
        }
        i += 1;
    }
    SourceOutcome::NotQueried
}

#[derive(Debug, Clone, PartialEq, Eq)]
pub struct DriveReading {
    pub model: Option<String>,
    pub serial_number: Option<String>,
    pub firmware_revision: Option<String>,
    pub bus_type: Option<String>,
    pub media_kind: Option<String>,
    pub capacity_bytes: Option<u64>,
    pub rotational: Option<bool>,
    pub removable: bool,
    pub power_on_hours: Option<u64>,
    pub power_cycles: Option<u64>,
    pub percentage_used: Option<u32>,
    pub available_spare_percent: Option<u32>,
    /// Whole degrees Celsius, as the counters report them.
    pub temperature_c: Option<u64>,
    pub media_errors: Option<u64>,
    pub reallocated_sectors: Option<u64>,
    pub pending_sectors: Option<u64>,
    pub critical_warning: Option<bool>,
    pub predicts_failure: Option<bool>,
    pub remaining_life_percent: Option<u32>,
}

/// How a drive can be scored: a failure signal, NVMe wear, or ATA sector
/// counts.
#[derive(Debug, Clone, Copy, PartialEq, Eq, Structural)]
pub enum ScoringKind {
    Nvme,
    Ata,
    PredictedFailure,
}

pub open spec fn fails(d: DriveReading) -> bool {
    d.predicts_failure == Some(true) || d.critical_warning == Some(true) || (match d.pending_sectors {
        Some(p) => p > 0,
        None => false,
    })
}

pub open spec fn scoring_kind_spec(d: DriveReading) -> Option<ScoringKind> {
    if fails(d) {
        Some(ScoringKind::PredictedFailure)
    } else if d.percentage_used is Some {
        Some(ScoringKind::Nvme)
    } else if d.reallocated_sectors is Some && d.pending_sectors is Some {
        Some(ScoringKind::Ata)
    } else {
        None
    }
}

pub fn scoring_kind(drive: &DriveReading) -> (k: Option<ScoringKind>)
    ensures
        k == scoring_kind_spec(*drive),
{
    let pending = match drive.pending_sectors {
        Some(p) => p > 0,
        None => false,
    };
    if drive.predicts_failure == Some(true) || drive.critical_warning == Some(true) || pending {
        return Some(ScoringKind::PredictedFailure);
    }
    if drive.percentage_used.is_some() {
        return Some(ScoringKind::Nvme);
    }
    if drive.reallocated_sectors.is_some() && drive.pending_sectors.is_some() {
        return Some(ScoringKind::Ata);
    }
    None
}

impl DriveReading {
    /// The model, else the serial number, else a generic label.
    #[must_use]
    pub fn display_name(&self) -> (s: String)
        ensures
            s@ == (match self.model {
                Some(m) => m@,
                None => match self.serial_number {
                    Some(n) => n@,
                    None => "Storage device"@,
                },
            }),
    {
        match &self.model {
            Some(m) => m.clone(),
            None => match &self.serial_number {
                Some(n) => n.clone(),
                None => owned("Storage device"),
            },
        }
    }

    #[must_use]
    pub fn is_scorable(&self) -> (r: bool)
        ensures
            r == scoring_kind_spec(*self) is Some,
    {
        scoring_kind(self).is_some()
    }
}

#[derive(Debug, Clone, PartialEq, Eq)]
pub struct StorageProbe {
    pub drives: Vec<DriveReading>,
    pub sources: Vec<SourceStatus>,
    pub elevated: Option<bool>,
    pub probe_error: Option<&'static str>,
}

/// The scorable drives, internal only when `internal` is set, in order.
pub open spec fn scorable(drives: Seq<DriveReading>, internal: bool) -> Seq<DriveReading>
    decreases drives.len(),
{
    if drives.len() == 0 {
        Seq::<DriveReading>::empty()
    } else {
        let d = drives.last();
        let before = scorable(drives.drop_last(), internal);
        if scoring_kind_spec(d) is Some && (!internal || !d.removable) {
            before.push(d)
        } else {
            before
        }
    }
}

/// The drives scored: internal media wins over USB sticks.
pub open spec fn scoring_spec(drives: Seq<DriveReading>) -> Seq<DriveReading> {
    if scorable(drives, true).len() > 0 {
        scorable(drives, true)
    } else {
        scorable(drives, false)
    }
}

/// The faults the scored drives report, each once, in first-seen order.
pub open spec fn faults_of(drives: Seq<DriveReading>) -> Seq<CriticalFault>
    decreases drives.len(),
{
    if drives.len() == 0 {
        Seq::<CriticalFault>::empty()
    } else {
        let d = drives.last();
        let f0 = faults_of(drives.drop_last());
        let f1 = if d.predicts_failure == Some(true) {
            add_fault(f0, CriticalFault::StoragePredictsFailure)
        } else {
            f0
        };
        let f2 = if d.critical_warning == Some(true) {
            add_fault(f1, CriticalFault::NvmeCriticalWarning)
        } else {
            f1
        };
        if (match d.pending_sectors {
            Some(p) => p > 0,
            None => false,
        }) {
            add_fault(f2, CriticalFault::PendingSectorsPresent)
        } else {
            f2
        }
    }
}

pub open spec fn add_fault(faults: Seq<CriticalFault>, f: CriticalFault) -> Seq<CriticalFault> {
    if faults.contains(f) {
        faults
    } else {
        faults.push(f)
    }
}

/// A drive reports a fault of this kind.
pub open spec fn drive_reports(d: DriveReading, f: CriticalFault) -> bool {
    match f {
        CriticalFault::StoragePredictsFailure => d.predicts_failure == Some(true),
        CriticalFault::NvmeCriticalWarning => d.critical_warning == Some(true),
        CriticalFault::PendingSectorsPresent => match d.pending_sectors {
            Some(p) => p > 0,
            None => false,
        },
        _ => false,
    }
}

proof fn lemma_add_fault(faults: Seq<CriticalFault>, g: CriticalFault, f: CriticalFault)
    ensures
        add_fault(faults, g).contains(f) <==> (faults.contains(f) || f == g),
{
    if !faults.contains(g) {
        assert(faults.push(g)[faults.len() as int] == g);
        if faults.push(g).contains(f) && f != g {
            let j = choose|j: int| 0 <= j < faults.push(g).len() && faults.push(g)[j] == f;
            assert(faults[j] == f);
        }
        if faults.contains(f) {
            let j = choose|j: int| 0 <= j < faults.len() && faults[j] == f;
            assert(faults.push(g)[j] == f);
        }
    }
}

proof fn lemma_faults_of(drives: Seq<DriveReading>, f: CriticalFault)
    ensures
        faults_of(drives).contains(f) <==> exists|i: int| 0 <= i < drives.len() && drive_reports(#[trigger] drives[i], f),
    decreases drives.len(),
{
    if drives.len() > 0 {
        let front = drives.drop_last();
        lemma_faults_of(front, f);
        let d = drives.last();
        let f0 = faults_of(front);
        lemma_add_fault(f0, CriticalFault::StoragePredictsFailure, f);
        let f1 = if d.predicts_failure == Some(true) {
            add_fault(f0, CriticalFault::StoragePredictsFailure)
        } else {
            f0
        };
        lemma_add_fault(f1, CriticalFault::NvmeCriticalWarning, f);
        let f2 = if d.critical_warning == Some(true) {
            add_fault(f1, CriticalFault::NvmeCriticalWarning)
        } else {
            f1
        };
        lemma_add_fault(f2, CriticalFault::PendingSectorsPresent, f);
        assert(d == drives[drives.len() - 1]);
        if exists|i: int| 0 <= i < drives.len() && drive_reports(#[trigger] drives[i], f) {
            let i = choose|i: int| 0 <= i < drives.len() && drive_reports(#[trigger] drives[i], f);
            if i < drives.len() - 1 {
                assert(front[i] == drives[i]);
            }
        }
        if exists|i: int| 0 <= i < front.len() && drive_reports(#[trigger] front[i], f) {
            let i = choose|i: int| 0 <= i < front.len() && drive_reports(#[trigger] front[i], f);
            assert(drives[i] == front[i]);
        }
    }
}

/// A critical storage fault is reported exactly when some scored drive
/// reports it: a predicted failure, an NVMe critical warning or pending
/// sectors on any scored drive forces that fault, and no fault is
/// reported that no scored drive shows.
pub proof fn storage_faults_come_from_the_scored_drives(drives: Seq<DriveReading>, f: CriticalFault)
    ensures
        faults_of(scoring_spec(drives)).contains(f) <==> exists|i: int|
            0 <= i < scoring_spec(drives).len() && drive_reports(#[trigger] scoring_spec(drives)[i], f),
{
    lemma_faults_of(scoring_spec(drives), f);
}

fn push_unique(faults: &mut Vec<CriticalFault>, fault: CriticalFault)
    ensures
        final(faults)@ == add_fault(old(faults)@, fault),
{
    let mut i: usize = 0;
    while i < faults.len()
        invariant
            i <= faults@.len(),
            forall|k: int| 0 <= k < i ==> faults@[k] != fault,
        decreases faults.len() - i,
    {
        if faults[i] == fault {
            assert(faults@.contains(fault));
            return;
        }
        i += 1;
    }
    faults.push(fault);
}

fn filter_scorable(drives: &Vec<DriveReading>, internal: bool) -> (out: Vec<&DriveReading>)
    ensures
        out@.len() == scorable(drives@, internal).len(),
        forall|i: int| 0 <= i < out@.len() ==> *out@[i] == scorable(drives@, internal)[i],
{
    let mut out: Vec<&DriveReading> = Vec::new();
    let mut i: usize = 0;
    while i < drives.len()
        invariant
            i <= drives@.len(),
            out@.len() == scorable(drives@.take(i as int), internal).len(),
            forall|k: int| 0 <= k < out@.len() ==> *out@[k] == scorable(drives@.take(i as int), internal)[k],
        decreases drives.len() - i,
    {
        assert(drives@.take(i + 1).drop_last() =~= drives@.take(i as int));
        let d = &drives[i];
        if d.is_scorable() && (!internal || !d.removable) {
            out.push(d);
        }
        i += 1;
    }
    assert(drives@.take(drives@.len() as int) =~= drives@);
    out
}

impl StorageProbe {
    /// A probe that could not run, saying why; no source was queried.
    #[must_use]
    pub fn unavailable(reason: &'static str) -> (p: Self)
        ensures
            p.drives@.len() == 0,
            none_queried(p.sources@),
            p.elevated is None,
            p.probe_error == Some(reason),
    {
        StorageProbe {
            drives: Vec::new(),
            sources: unqueried_sources(),
            elevated: None,
            probe_error: Some(reason),
        }
    }

    #[must_use]
    pub fn outcome_for(&self, source: StorageSource) -> (o: SourceOutcome)
        ensures
            o == outcome_in(self.sources@, source),
    {
        find_outcome(&self.sources, source)
    }

    /// Windows refused the reliability counters or the predict-failure class.
    #[must_use]
    pub fn reliability_refused(&self) -> (r: bool)
        ensures
            r == (outcome_in(self.sources@, StorageSource::ReliabilityCounter)
                == SourceOutcome::PermissionDenied || outcome_in(
                self.sources@,
                StorageSource::PredictFailure,
            ) == SourceOutcome::PermissionDenied),
    {
        self.outcome_for(StorageSource::ReliabilityCounter) == SourceOutcome::PermissionDenied
            || self.outcome_for(StorageSource::PredictFailure) == SourceOutcome::PermissionDenied
    }

    /// Drives used for scoring. Internal media wins over USB sticks.
    #[must_use]
    pub fn scoring_drives(&self) -> (out: Vec<&DriveReading>)
        ensures
            out@.len() == scoring_spec(self.drives@).len(),
            forall|i: int| 0 <= i < out@.len() ==> *out@[i] == scoring_spec(self.drives@)[i],
    {
        let internal = filter_scorable(&self.drives, true);
        if internal.len() > 0 {
            return internal;
        }
        filter_scorable(&self.drives, false)
    }

    #[must_use]
    pub fn critical_faults(&self) -> (faults: Vec<CriticalFault>)
        ensures
            faults@ == faults_of(scoring_spec(self.drives@)),
    {
        let drives = self.scoring_drives();
        let ghost s = scoring_spec(self.drives@);
        let mut faults: Vec<CriticalFault> = Vec::new();
        let mut i: usize = 0;
        while i < drives.len()
            invariant
                i <= drives@.len(),
                drives@.len() == s.len(),
                forall|k: int| 0 <= k < drives@.len() ==> *drives@[k] == s[k],
                faults@ == faults_of(s.take(i as int)),
            decreases drives.len() - i,
        {
            assert(s.take(i + 1).drop_last() =~= s.take(i as int));
            let d = drives[i];
            assert(*d == s[i as int]);
            if d.predicts_failure == Some(true) {
                push_unique(&mut faults, CriticalFault::StoragePredictsFailure);
            }
            if d.critical_warning == Some(true) {
                push_unique(&mut faults, CriticalFault::NvmeCriticalWarning);
            }
            let pending = match d.pending_sectors {
                Some(p) => p > 0,
                None => false,
            };
            if pending {
                push_unique(&mut faults, CriticalFault::PendingSectorsPresent);
            }
            i += 1;
        }
        assert(s.take(s.len() as int) =~= s);
        faults
    }
}

pub type Values = Map<(Seq<char>, int, Seq<char>), Seq<char>>;

/// A whole number, zero allowed.
pub open spec fn n64(m: Values, section: Seq<char>, index: int, name: Seq<char>) -> Option<u64> {
    match lookup(m, section, index, name) {
        Some(v) => parse_u64_spec(v),
        None => None,
    }
}

/// A positive whole number.
pub open spec fn p64(m: Values, section: Seq<char>, index: int, name: Seq<char>) -> Option<u64> {
    match n64(m, section, index, name) {
        Some(n) => if n > 0 {
            Some(n)
        } else {
            None
        },
        None => None,
    }
}

pub open spec fn n32(m: Values, section: Seq<char>, index: int, name: Seq<char>) -> Option<u32> {
    match lookup(m, section, index, name) {
        Some(v) => parse_u32_spec(v),
        None => None,
    }
}

/// `true`/`1` or `false`/`0`; anything else is unknown.
pub open spec fn bool_spec(m: Values, section: Seq<char>, index: int, name: Seq<char>) -> Option<bool> {
    match lookup(m, section, index, name) {
        Some(v) => if lower_seq(v) == "true"@ || v == "1"@ {
            Some(true)
        } else if lower_seq(v) == "false"@ || v == "0"@ {
            Some(false)
        } else {
            None
        },
        None => None,
    }
}

pub open spec fn or_else<T>(a: Option<T>, b: Option<T>) -> Option<T> {
    if a is Some {
        a
    } else {
        b
    }
}

pub open spec fn text_or(m: Values, index: int, first: Seq<char>, second: Seq<char>) -> Option<Seq<char>> {
    or_else(
        text_value(lookup(m, "physical"@, index, first), false),
        text_value(lookup(m, "disk"@, index, second), false),
    )
}

/// `d` is the drive read at `index`.
pub open spec fn drive_at(d: DriveReading, m: Values, index: int) -> bool {
    let used = n32(m, "reliability"@, index, "percentage_used"@);
    &&& opt_view(d.model) == text_or(m, index, "model"@, "model"@)
    &&& opt_view(d.serial_number) == text_or(m, index, "serial_number"@, "serial_number"@)
    &&& opt_view(d.firmware_revision) == text_or(m, index, "firmware_revision"@, "firmware_revision"@)
    &&& opt_view(d.bus_type) == text_or(m, index, "bus_type"@, "interface_type"@)
    &&& opt_view(d.media_kind) == text_or(m, index, "media_kind"@, "media_type"@)
    &&& d.capacity_bytes == or_else(
        p64(m, "physical"@, index, "capacity_bytes"@),
        p64(m, "disk"@, index, "capacity_bytes"@),
    )
    &&& d.rotational == bool_spec(m, "physical"@, index, "rotational"@)
    &&& d.removable == (flag_spec(m, "physical"@, index, "removable"@) || flag_spec(
        m,
        "disk"@,
        index,
        "removable"@,
    ))
    &&& d.power_cycles == or_else(
        n64(m, "reliability"@, index, "power_cycles"@),
        n64(m, "smartdata"@, index, "power_cycles"@),
    )
    &&& d.percentage_used == used
    &&& d.available_spare_percent == n32(m, "reliability"@, index, "available_spare"@)
    &&& d.temperature_c == or_else(
        n64(m, "reliability"@, index, "temperature_c"@),
        n64(m, "smartdata"@, index, "temperature_c"@),
    )
    &&& d.media_errors == or_else(
        n64(m, "reliability"@, index, "read_errors_uncorrected"@),
        n64(m, "reliability"@, index, "write_errors_uncorrected"@),
    )
    &&& d.critical_warning is None
    &&& d.remaining_life_percent == (match used {
        Some(u) => Some(
            (100 - (if u > 100 {
                100
            } else {
                u as int
            })) as u32,
        ),
        None => None,
    })
}

/// The SMART fields of a drive read at `index`.
pub open spec fn smart_at(d: DriveReading, m: Values, index: int) -> bool {
    &&& d.power_on_hours == or_else(
        n64(m, "reliability"@, index, "power_on_hours"@),
        n64(m, "smartdata"@, index, "power_on_hours"@),
    )
    &&& d.reallocated_sectors == n64(m, "smartdata"@, index, "reallocated_sectors"@)
    &&& d.pending_sectors == n64(m, "smartdata"@, index, "pending_sectors"@)
    &&& d.predicts_failure == bool_spec(m, "predict"@, index, "predicts_failure"@)
}

/// The indexes below `n` where the identity or the physical disk class
/// lists a drive.
pub open spec fn drive_indices(m: Values, n: nat) -> Seq<int>
    decreases n,
{
    if n == 0 {
        Seq::<int>::empty()
    } else {
        let before = drive_indices(m, (n - 1) as nat);
        if flag_spec(m, "disk"@, n - 1, "present"@) || flag_spec(m, "physical"@, n - 1, "present"@) {
            before.push(n - 1)
        } else {
            before
        }
    }
}

/// A drive known only from SMART data, with no identity.
pub open spec fn smart_only(d: DriveReading, m: Values) -> bool {
    &&& d.model is None && d.serial_number is None && d.firmware_revision is None
    &&& d.bus_type is None && d.media_kind is None && d.capacity_bytes is None
    &&& d.rotational is None && !d.removable
    &&& d.power_on_hours == n64(m, "smartdata"@, 0, "power_on_hours"@)
    &&& d.power_cycles == n64(m, "smartdata"@, 0, "power_cycles"@)
    &&& d.percentage_used is None && d.available_spare_percent is None
    &&& d.temperature_c == n64(m, "smartdata"@, 0, "temperature_c"@)
    &&& d.media_errors is None
    &&& d.reallocated_sectors == n64(m, "smartdata"@, 0, "reallocated_sectors"@)
    &&& d.pending_sectors == n64(m, "smartdata"@, 0, "pending_sectors"@)
    &&& d.critical_warning is None
    &&& d.predicts_failure == bool_spec(m, "predict"@, 0, "predicts_failure"@)
    &&& d.remaining_life_percent is None
}

/// The drives of a storage reading. SMART data can arrive on another index
/// than the identity: with exactly one drive, index 0's SMART values fill
/// what its own index left unknown; with none, SMART data alone still makes
/// one drive.
pub open spec fn drives_spec(ds: Seq<DriveReading>, m: Values) -> bool {
    let idx = drive_indices(m, (MAX_INDEX + 1) as nat);
    if idx.len() == 1 {
        let d = ds[0];
        let i = idx[0];
        &&& ds.len() == 1
        &&& drive_at(d, m, i)
        &&& d.power_on_hours == or_else(
            or_else(n64(m, "reliability"@, i, "power_on_hours"@), n64(m, "smartdata"@, i, "power_on_hours"@)),
            n64(m, "smartdata"@, 0, "power_on_hours"@),
        )
        &&& d.reallocated_sectors == or_else(
            n64(m, "smartdata"@, i, "reallocated_sectors"@),
            n64(m, "smartdata"@, 0, "reallocated_sectors"@),
        )
        &&& d.pending_sectors == or_else(
            n64(m, "smartdata"@, i, "pending_sectors"@),
            n64(m, "smartdata"@, 0, "pending_sectors"@),
        )
        &&& d.predicts_failure == or_else(
            bool_spec(m, "predict"@, i, "predicts_failure"@),
            bool_spec(m, "predict"@, 0, "predicts_failure"@),
        )
    } else if idx.len() == 0 {
        if flag_spec(m, "predict"@, 0, "present"@) || flag_spec(m, "smartdata"@, 0, "present"@) {
            ds.len() == 1 && smart_only(ds[0], m)
        } else {
            ds.len() == 0
        }
    } else {
        &&& ds.len() == idx.len()
        &&& forall|k: int| 0 <= k < ds.len() ==> drive_at(#[trigger] ds[k], m, idx[k]) && smart_at(ds[k], m, idx[k])
    }
}

pub open spec fn storage_sections() -> Seq<Seq<char>> {
    seq![
        "session"@,
        "disk"@,
        "physical"@,
        "reliability"@,
        "predict"@,
        "smartdata"@,
    ]
}

pub open spec fn storage_names() -> Seq<Seq<char>> {
    seq![
        "source_status"@,
        "record_count"@,
        "present"@,
        "elevated"@,
        "model"@,
        "serial_number"@,
        "firmware_revision"@,
        "capacity_bytes"@,
        "interface_type"@,
        "media_type"@,
        "media_kind"@,
        "bus_type"@,
        "status"@,
        "health_status"@,
        "rotational"@,
        "removable"@,
        "percentage_used"@,
        "available_spare"@,
        "temperature_c"@,
        "power_on_hours"@,
        "power_cycles"@,
        "read_errors_uncorrected"@,
        "write_errors_uncorrected"@,
        "predicts_failure"@,
        "reason"@,
        "instance"@,
        "reallocated_sectors"@,
        "pending_sectors"@,
    ]
}

/// `p` is what the storage protocol output `text` says.
pub open spec fn storage_probe_of(p: StorageProbe, text: Seq<char>) -> bool {
    let m = parse_spec(
        text,
        MAX_PROTOCOL_LINES as nat,
        MAX_INDEX as nat,
        MAX_VALUE_BYTES as nat,
        storage_sections(),
        storage_names(),
        false,
    );
    &&& drives_spec(p.drives@, m)
    &&& statuses_from(p.sources@, m)
    &&& p.elevated == bool_spec(m, "session"@, 0, "elevated"@)
    &&& p.probe_error is None
}

fn num64(values: &ProtocolValues, section: &str, index: usize, name: &str) -> (r: Option<u64>)
    ensures
        r == n64(values.map(), section@, index as int, name@),
{
    values.number(section, index, name)
}

fn pos64(values: &ProtocolValues, section: &str, index: usize, name: &str) -> (r: Option<u64>)
    ensures
        r == p64(values.map(), section@, index as int, name@),
{
    match values.number(section, index, name) {
        Some(n) => if n > 0 {
            Some(n)
        } else {
            None
        },
        None => None,
    }
}

fn num32(values: &ProtocolValues, section: &str, index: usize, name: &str) -> (r: Option<u32>)
    ensures
        r == n32(values.map(), section@, index as int, name@),
{
    match values.lookup_value(section, index, name) {
        Some(v) => crate::numtext::parse_u32(&v),
        None => None,
    }
}

fn bool_field(values: &ProtocolValues, section: &str, index: usize, name: &str) -> (r: Option<bool>)
    ensures
        r == bool_spec(values.map(), section@, index as int, name@),
{
    match values.lookup_value(section, index, name) {
        Some(v) => {
            let l = lower_vec(&v);
            if eq_str(&l, "true") || eq_str(&v, "1") {
                Some(true)
            } else if eq_str(&l, "false") || eq_str(&v, "0") {
                Some(false)
            } else {
                None
            }
        },
        None => None,
    }
}

fn first_u64(a: Option<u64>, b: Option<u64>) -> (r: Option<u64>)
    ensures
        r == or_else(a, b),
{
    match a {
        Some(_) => a,
        None => b,
    }
}

fn text_either(values: &ProtocolValues, index: usize, first: &str, second: &str) -> (r: Option<String>)
    ensures
        opt_view(r) == text_or(values.map(), index as int, first@, second@),
{
    match values.text("physical", index, first, false) {
        Some(t) => Some(t),
        None => values.text("disk", index, second, false),
    }
}

fn drive(values: &ProtocolValues, index: usize) -> (d: DriveReading)
    ensures
        drive_at(d, values.map(), index as int),
        smart_at(d, values.map(), index as int),
{
    let percentage_used = num32(values, "reliability", index, "percentage_used");
    let remaining_life_percent = match percentage_used {
        Some(u) => Some(
            100 - if u > 100 {
                100
            } else {
                u
            },
        ),
        None => None,
    };
    DriveReading {
        model: text_either(values, index, "model", "model"),
        serial_number: text_either(values, index, "serial_number", "serial_number"),
        firmware_revision: text_either(values, index, "firmware_revision", "firmware_revision"),
        bus_type: text_either(values, index, "bus_type", "interface_type"),
        media_kind: text_either(values, index, "media_kind", "media_type"),
        capacity_bytes: first_u64(
            pos64(values, "physical", index, "capacity_bytes"),
            pos64(values, "disk", index, "capacity_bytes"),
        ),
        rotational: bool_field(values, "physical", index, "rotational"),
        removable: values.flag("physical", index, "removable") || values.flag("disk", index, "removable"),
        power_on_hours: first_u64(
            num64(values, "reliability", index, "power_on_hours"),
            num64(values, "smartdata", index, "power_on_hours"),
        ),
        power_cycles: first_u64(
            num64(values, "reliability", index, "power_cycles"),
            num64(values, "smartdata", index, "power_cycles"),
        ),
        percentage_used,
        available_spare_percent: num32(values, "reliability", index, "available_spare"),
        temperature_c: first_u64(
            num64(values, "reliability", index, "temperature_c"),
            num64(values, "smartdata", index, "temperature_c"),
        ),
        media_errors: first_u64(
            num64(values, "reliability", index, "read_errors_uncorrected"),
            num64(values, "reliability", index, "write_errors_uncorrected"),
        ),
        reallocated_sectors: num64(values, "smartdata", index, "reallocated_sectors"),
        pending_sectors: num64(values, "smartdata", index, "pending_sectors"),
        critical_warning: None,
        predicts_failure: bool_field(values, "predict", index, "predicts_failure"),
        remaining_life_percent,
    }
}

fn merge_drives(values: &ProtocolValues) -> (drives: Vec<DriveReading>)
    ensures
        drives_spec(drives@, values.map()),
{
    let ghost m = values.map();
    let mut drives: Vec<DriveReading> = Vec::new();
    let mut index: usize = 0;
    while index <= MAX_INDEX
        invariant
            index <= MAX_INDEX + 1,
            m == values.map(),
            drives@.len() == drive_indices(m, index as nat).len(),
            forall|k: int|
                0 <= k < drives@.len() ==> drive_at(#[trigger] drives@[k], m, drive_indices(m, index as nat)[k])
                    && smart_at(drives@[k], m, drive_indices(m, index as nat)[k]),
        decreases MAX_INDEX + 1 - index,
    {
        if values.flag("disk", index, "present") || values.flag("physical", index, "present") {
            drives.push(drive(values, index));
        }
        index += 1;
    }
    if drives.len() == 1 {
        let mut d = drives.pop().unwrap();
        if d.predicts_failure.is_none() {
            d.predicts_failure = bool_field(values, "predict", 0, "predicts_failure");
        }
        if d.reallocated_sectors.is_none() {
            d.reallocated_sectors = num64(values, "smartdata", 0, "reallocated_sectors");
        }
        if d.pending_sectors.is_none() {
            d.pending_sectors = num64(values, "smartdata", 0, "pending_sectors");
        }
        if d.power_on_hours.is_none() {
            d.power_on_hours = num64(values, "smartdata", 0, "power_on_hours");
        }
        drives.push(d);
    } else if drives.len() == 0 {
        if values.flag("predict", 0, "present") || values.flag("smartdata", 0, "present") {
            drives.push(
                DriveReading {
                    model: None,
                    serial_number: None,
                    firmware_revision: None,
                    bus_type: None,
                    media_kind: None,
                    capacity_bytes: None,
                    rotational: None,
                    removable: false,
                    power_on_hours: num64(values, "smartdata", 0, "power_on_hours"),
                    power_cycles: num64(values, "smartdata", 0, "power_cycles"),
                    percentage_used: None,
                    available_spare_percent: None,
                    temperature_c: num64(values, "smartdata", 0, "temperature_c"),
                    media_errors: None,
                    reallocated_sectors: num64(values, "smartdata", 0, "reallocated_sectors"),
                    pending_sectors: num64(values, "smartdata", 0, "pending_sectors"),
                    critical_warning: None,
                    predicts_failure: bool_field(values, "predict", 0, "predicts_failure"),
                    remaining_life_percent: None,
                },
            );
        }
    }
    drives
}

#[must_use]
pub fn parse_probe(text: &str) -> (p: StorageProbe)
    ensures
        storage_probe_of(p, text@),
{
    let sections: Vec<&str> = vec![
        "session",
        "disk",
        "physical",
        "reliability",
        "predict",
        "smartdata",
    ];
    let names: Vec<&str> = vec![
        "source_status",
        "record_count",
        "present",
        "elevated",
        "model",
        "serial_number",
        "firmware_revision",
        "capacity_bytes",
        "interface_type",
        "media_type",
        "media_kind",
        "bus_type",
        "status",
        "health_status",
        "rotational",
        "removable",
        "percentage_used",
        "available_spare",
        "temperature_c",
        "power_on_hours",
        "power_cycles",
        "read_errors_uncorrected",
        "write_errors_uncorrected",
        "predicts_failure",
        "reason",
        "instance",
        "reallocated_sectors",
        "pending_sectors",
    ];
    proof {
        assert(strs(sections@) =~= storage_sections());
        assert(strs(names@) =~= storage_names());
    }
    let values = parse_protocol(
        text,
        MAX_PROTOCOL_LINES,
        MAX_INDEX,
        MAX_VALUE_BYTES,
        sections.as_slice(),
        names.as_slice(),
        false,
    );
    StorageProbe {
        drives: merge_drives(&values),
        sources: reported_sources(&values),
        elevated: bool_field(&values, "session", 0, "elevated"),
        probe_error: None,
    }
}

} // verus!
