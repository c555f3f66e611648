//! Processor and memory identity for Advance scan: what the processor and
//! memory modules are, read from Windows classes. Nothing is benchmarked.

use vstd::prelude::*;
use crate::probe_protocol::{
    flag_spec, lookup, opt_view, parse_protocol, parse_spec, present_indices, strs, text_value,
    wire_outcome, ProtocolValues, WireOutcome,
};
use crate::numtext::{decimal_whole, parse_decimal_whole, push_dec};
use crate::text::{append_str, chars_of, string_of};

verus! {

pub const MAX_PROTOCOL_LINES: usize = 256;
pub const MAX_VALUE_BYTES: usize = 1024;
pub const MAX_INDEX: usize = 8;

/// Reads the processor, the operating system's memory totals and the
/// physical memory modules. Identity only.
pub const IDENTITY_SCRIPT: &'static str = r#"
$ErrorActionPreference = 'Stop'
$ProgressPreference = 'SilentlyContinue'

function Emit-Value([string]$section, [int]$index, [string]$name, $value) {
    if ($null -eq $value) { return }
    $text = [Convert]::ToString($value, [Globalization.CultureInfo]::InvariantCulture)
    if ($null -eq $text) { return }
    $text = $text.Trim()
    if ($text.Length -eq 0) { return }
    $bytes = [Text.Encoding]::UTF8.GetBytes($text)
    $hex = -join ($bytes | ForEach-Object { $_.ToString('x2') })
    [Console]::Out.WriteLine("$section`t$index`t$name`t$hex")
}

function Emit-Status([string]$section, $errorRecord) {
    $status = 'collection_error'
    if ($null -ne $errorRecord) {
        $hresult = $errorRecord.Exception.HResult
        $native = $errorRecord.Exception.NativeErrorCode
        if (($hresult -eq -2147024891) -or ($native -eq 5) -or ("$($errorRecord.Exception.Message)" -match 'Access is denied|UnauthorizedAccess')) { $status = 'permission_denied' }
        elseif ($errorRecord.Exception -is [Management.Automation.CommandNotFoundException]) { $status = 'unsupported' }
        elseif ("$($errorRecord.Exception.Message)" -match 'not supported|Invalid class|Not found') { $status = 'unsupported' }
    }
    Emit-Value $section 0 'source_status' $status
}

try {
    $cpu = Get-CimInstance -ClassName Win32_Processor -ErrorAction Stop | Select-Object -First 1
    Emit-Value 'cpu' 0 'source_status' 'reported'
    Emit-Value 'cpu' 0 'present' $true
    Emit-Value 'cpu' 0 'name' $cpu.Name
    Emit-Value 'cpu' 0 'manufacturer' $cpu.Manufacturer
    if ($cpu.NumberOfCores) { Emit-Value 'cpu' 0 'cores' $cpu.NumberOfCores }
    if ($cpu.NumberOfLogicalProcessors) { Emit-Value 'cpu' 0 'logical' $cpu.NumberOfLogicalProcessors }
    if ($cpu.MaxClockSpeed) { Emit-Value 'cpu' 0 'max_mhz' $cpu.MaxClockSpeed }
    if ($cpu.CurrentClockSpeed) { Emit-Value 'cpu' 0 'current_mhz' $cpu.CurrentClockSpeed }
    if ($cpu.L2CacheSize) { Emit-Value 'cpu' 0 'l2_kb' $cpu.L2CacheSize }
    if ($cpu.L3CacheSize) { Emit-Value 'cpu' 0 'l3_kb' $cpu.L3CacheSize }
} catch { Emit-Status 'cpu' $_ }

try {
    $os = Get-CimInstance -ClassName Win32_OperatingSystem -ErrorAction Stop
    Emit-Value 'memory' 0 'source_status' 'reported'
    if ($os.TotalVisibleMemorySize) { Emit-Value 'memory' 0 'total_kb' $os.TotalVisibleMemorySize }
    if ($os.FreePhysicalMemory) { Emit-Value 'memory' 0 'available_kb' $os.FreePhysicalMemory }
} catch { Emit-Status 'memory' $_ }

try {
    $modules = @(Get-CimInstance -ClassName Win32_PhysicalMemory -ErrorAction Stop)
    Emit-Value 'module' 0 'source_status' 'reported'
    Emit-Value 'module' 0 'record_count' $modules.Count
    for ($i = 0; $i -lt $modules.Count; $i++) {
        if ($i -ge 8) { break }
        $m = $modules[$i]
        Emit-Value 'module' $i 'present' $true
        Emit-Value 'module' $i 'locator' $m.DeviceLocator
        if ($m.Capacity) { Emit-Value 'module' $i 'capacity_bytes' $m.Capacity }
        if ($m.Speed) { Emit-Value 'module' $i 'speed_mhz' $m.Speed }
        if ($m.ConfiguredClockSpeed) { Emit-Value 'module' $i 'configured_mhz' $m.ConfiguredClockSpeed }
        Emit-Value 'module' $i 'part_number' $m.PartNumber
    }
} catch { Emit-Status 'module' $_ }
"#;

/// Which Windows class a value came from.
#[derive(Debug, Clone, Copy, PartialEq, Eq, Structural)]
#[non_exhaustive]
pub enum IdentitySource {
    Processor,
    MemorySummary,
    MemoryModule,
}

impl IdentitySource {
    pub open spec fn label_text(self) -> Seq<char> {
        match self {
            IdentitySource::Processor => "Processor class"@,
            IdentitySource::MemorySummary => "Operating-system memory"@,
            IdentitySource::MemoryModule => "Physical memory modules"@,
        }
    }

    #[must_use]
    pub fn label(self) -> (s: &'static str)
        ensures
            s@ == self.label_text(),
    {
        match self {
            IdentitySource::Processor => "Processor class",
            IdentitySource::MemorySummary => "Operating-system memory",
            IdentitySource::MemoryModule => "Physical memory modules",
        }
    }

    pub open spec fn section_text(self) -> Seq<char> {
        match self {
            IdentitySource::Processor => "cpu"@,
            IdentitySource::MemorySummary => "memory"@,
            IdentitySource::MemoryModule => "module"@,
        }
    }

    fn section(self) -> (s: &'static str)
        ensures
            s@ == self.section_text(),
    {
        match self {
            IdentitySource::Processor => "cpu",
            IdentitySource::MemorySummary => "memory",
            IdentitySource::MemoryModule => "module",
        }
    }
}

/// Every source, in report order.
pub open spec fn source_at(i: int) -> IdentitySource {
    if i == 0 {
        IdentitySource::Processor
    } else if i == 1 {
        IdentitySource::MemorySummary
    } else {
        IdentitySource::MemoryModule
    }
}

fn all_sources() -> (v: Vec<IdentitySource>)
    ensures
        v@.len() == 3,
        forall|i: int| 0 <= i < 3 ==> v@[i] == source_at(i),
{
    vec![
        IdentitySource::Processor,
        IdentitySource::MemorySummary,
        IdentitySource::MemoryModule,
    ]
}

/// Why a source did or did not answer.
#[derive(Debug, Clone, Copy, PartialEq, Eq, Structural)]
#[non_exhaustive]
pub enum SourceOutcome {
    Reported,
    NotQueried,
    PermissionDenied,
    Unsupported,
    CollectionError,
}

pub open spec fn outcome_of(w: WireOutcome) -> SourceOutcome {
    match w {
        WireOutcome::Reported => SourceOutcome::Reported,
        WireOutcome::NotQueried => SourceOutcome::NotQueried,
        WireOutcome::PermissionDenied => SourceOutcome::PermissionDenied,
        WireOutcome::Unsupported => SourceOutcome::Unsupported,
        WireOutcome::CollectionError => SourceOutcome::CollectionError,
    }
}

impl SourceOutcome {
    pub open spec fn customer_text(self) -> Seq<char> {
        match self {
            SourceOutcome::Reported => "Answered"@,
            SourceOutcome::NotQueried => "Not queried on this PC"@,
            SourceOutcome::PermissionDenied => "Refused without administrator rights"@,
            SourceOutcome::Unsupported => "Not available on this PC"@,
            SourceOutcome::CollectionError => "Windows returned an error"@,
        }
    }

    #[must_use]
    pub fn customer_label(self) -> (s: &'static str)
        ensures
            s@ == self.customer_text(),
    {
        match self {
            SourceOutcome::Reported => "Answered",
            SourceOutcome::NotQueried => "Not queried on this PC",
            SourceOutcome::PermissionDenied => "Refused without administrator rights",
            SourceOutcome::Unsupported => "Not available on this PC",
            SourceOutcome::CollectionError => "Windows returned an error",
        }
    }

    fn from_wire(w: WireOutcome) -> (o: Self)
        ensures
            o == outcome_of(w),
    {
        match w {
            WireOutcome::Reported => SourceOutcome::Reported,
            WireOutcome::NotQueried => SourceOutcome::NotQueried,
            WireOutcome::PermissionDenied => SourceOutcome::PermissionDenied,
            WireOutcome::Unsupported => SourceOutcome::Unsupported,
            WireOutcome::CollectionError => SourceOutcome::CollectionError,
        }
    }
}

#[derive(Debug, Clone, Copy, PartialEq, Eq, Structural)]
pub struct SourceStatus {
    pub source: IdentitySource,
    pub outcome: SourceOutcome,
}

/// The status of every source, none queried.
pub open spec fn none_queried(sources: Seq<SourceStatus>) -> bool {
    &&& sources.len() == 3
    &&& forall|i: int|
        0 <= i < 3 ==> sources[i] == (SourceStatus {
            source: source_at(i),
            outcome: SourceOutcome::NotQueried,
        })
}

/// The status of every source, as its status line reports.
pub open spec fn statuses_from(sources: Seq<SourceStatus>, m: Map<(Seq<char>, int, Seq<char>), Seq<char>>) -> bool {
    &&& sources.len() == 3
    &&& forall|i: int|
        0 <= i < 3 ==> sources[i] == (SourceStatus {
            source: source_at(i),
            outcome: outcome_of(wire_outcome(lookup(m, source_at(i).section_text(), 0, "source_status"@))),
        })
}

fn unqueried_sources() -> (sources: Vec<SourceStatus>)
    ensures
        none_queried(sources@),
{
    let all = all_sources();
    let mut sources: Vec<SourceStatus> = Vec::new();
    let mut i: usize = 0;
    while i < all.len()
        invariant
            i <= 3,
            all@.len() == 3,
            forall|k: int| 0 <= k < 3 ==> all@[k] == source_at(k),
            sources@.len() == i,
            forall|k: int|
                0 <= k < i ==> sources@[k] == (SourceStatus {
                    source: source_at(k),
                    outcome: SourceOutcome::NotQueried,
                }),
        decreases all.len() - i,
    {
        sources.push(SourceStatus { source: all[i], outcome: SourceOutcome::NotQueried });
        i += 1;
    }
    sources
}

fn reported_sources(values: &ProtocolValues) -> (sources: Vec<SourceStatus>)
    ensures
        statuses_from(sources@, values.map()),
{
    let all = all_sources();
    let mut sources: Vec<SourceStatus> = Vec::new();
    let mut i: usize = 0;
    while i < all.len()
        invariant
            i <= 3,
            all@.len() == 3,
            forall|k: int| 0 <= k < 3 ==> all@[k] == source_at(k),
            sources@.len() == i,
            forall|k: int|
                0 <= k < i ==> sources@[k] == (SourceStatus {
                    source: source_at(k),
                    outcome: outcome_of(
                        wire_outcome(lookup(values.map(), source_at(k).section_text(), 0, "source_status"@)),
                    ),
                }),
        decreases all.len() - i,
    {
        let source = all[i];
        let outcome = SourceOutcome::from_wire(values.outcome(source.section()));
        sources.push(SourceStatus { source, outcome });
        i += 1;
    }
    sources
}

/// The outcome recorded for a source; not queried when none is.
pub open spec fn outcome_in(sources: Seq<SourceStatus>, source: IdentitySource) -> SourceOutcome
    decreases sources.len(),
{
    if sources.len() == 0 {
        SourceOutcome::NotQueried
    } else if sources[0].source == source {
        sources[0].outcome
    } else {
        outcome_in(sources.drop_first(), source)
    }
}

fn find_outcome(sources: &Vec<SourceStatus>, source: IdentitySource) -> (o: SourceOutcome)
    ensures
        o == outcome_in(sources@, source),
{
    let mut i: usize = 0;
    assert(sources@.skip(0) =~= sources@);
    while i < sources.len()
        invariant
            i <= sources@.len(),
            outcome_in(sources@, source) == outcome_in(sources@.skip(i as int), source),
        decreases sources.len() - i,
    {
        assert(sources@.skip(i as int).drop_first() =~= sources@.skip(i + 1));
        assert(sources@.skip(i as int)[0] == sources@[i as int]);
        if sources[i].source == source {
            return sources[i].outcome;
        }
        i += 1;
    }
    SourceOutcome::NotQueried
}

#[derive(Debug, Clone, PartialEq, Eq)]
pub struct ProcessorIdentity {
    pub name: Option<String>,
    pub manufacturer: Option<String>,
    pub cores: Option<u32>,
    pub logical_processors: Option<u32>,
    pub max_mhz: Option<u32>,
    pub current_mhz: Option<u32>,
    pub l2_kb: Option<u32>,
    pub l3_kb: Option<u32>,
}

pub open spec fn cache_text(l2: Option<u32>, l3: Option<u32>) -> Option<Seq<char>> {
    match (l2, l3) {
        (Some(a), Some(b)) => Some(
            "L2 "@ + crate::numtext::dec(a as nat) + " KB, L3 "@ + crate::numtext::dec(b as nat) + " KB"@,
        ),
        (Some(a), None) => Some("L2 "@ + crate::numtext::dec(a as nat) + " KB"@),
        (None, Some(b)) => Some("L3 "@ + crate::numtext::dec(b as nat) + " KB"@),
        (None, None) => None,
    }
}

impl ProcessorIdentity {
    /// A model name, a core count and at least one cache size.
    #[must_use]
    pub fn identity_complete(&self) -> (r: bool)
        ensures
            r == (self.name is Some && self.cores is Some && (self.l2_kb is Some || self.l3_kb is Some)),
    {
        self.name.is_some() && self.cores.is_some() && (self.l2_kb.is_some() || self.l3_kb.is_some())
    }

    #[must_use]
    pub fn cache_summary(&self) -> (r: Option<String>)
        ensures
            opt_view(r) == cache_text(self.l2_kb, self.l3_kb),
    {
        let mut out: Vec<char> = Vec::new();
        match (self.l2_kb, self.l3_kb) {
            (Some(l2), Some(l3)) => {
                append_str(&mut out, "L2 ");
                push_dec(&mut out, l2 as u64);
                append_str(&mut out, " KB, L3 ");
                push_dec(&mut out, l3 as u64);
                append_str(&mut out, " KB");
            },
            (Some(l2), None) => {
                append_str(&mut out, "L2 ");
                push_dec(&mut out, l2 as u64);
                append_str(&mut out, " KB");
            },
            (None, Some(l3)) => {
                append_str(&mut out, "L3 ");
                push_dec(&mut out, l3 as u64);
                append_str(&mut out, " KB");
            },
            (None, None) => {
                return None;
            },
        }
        assert(out@ =~= cache_text(self.l2_kb, self.l3_kb).unwrap());
        Some(string_of(&out))
    }
}

#[derive(Debug, Clone, PartialEq, Eq)]
pub struct MemoryModuleReading {
    pub locator: Option<String>,
    pub capacity_bytes: Option<u64>,
    pub speed_mhz: Option<u32>,
    pub part_number: Option<String>,
}

#[derive(Debug, Clone, PartialEq, Eq)]
pub struct CpuMemoryProbe {
    pub processor: Option<ProcessorIdentity>,
    pub modules: Vec<MemoryModuleReading>,
    pub installed_bytes: Option<u64>,
    pub available_bytes: Option<u64>,
    pub sources: Vec<SourceStatus>,
    pub probe_error: Option<&'static str>,
}

/// Slots, a capacity and a speed are all known.
pub open spec fn inventory_complete_spec(p: CpuMemoryProbe) -> bool {
    let has_capacity = p.installed_bytes is Some || exists|i: int|
        0 <= i < p.modules@.len() && (#[trigger] p.modules@[i]).capacity_bytes is Some;
    let has_speed = exists|i: int|
        0 <= i < p.modules@.len() && (#[trigger] p.modules@[i]).speed_mhz is Some;
    let has_slots = p.modules@.len() > 0 || p.installed_bytes is Some;
    has_slots && has_capacity && has_speed
}

impl CpuMemoryProbe {
    /// A probe that could not run, saying why; no source was queried.
    #[must_use]
    pub fn unavailable(reason: &'static str) -> (p: Self)
        ensures
            p.processor is None,
            p.modules@.len() == 0,
            p.installed_bytes is None,
            p.available_bytes is None,
            none_queried(p.sources@),
            p.probe_error == Some(reason),
    {
        CpuMemoryProbe {
            processor: None,
            modules: Vec::new(),
            installed_bytes: None,
            available_bytes: None,
            sources: unqueried_sources(),
            probe_error: Some(reason),
        }
    }

    #[must_use]
    pub fn inventory_complete(&self) -> (r: bool)
        ensures
            r == inventory_complete_spec(*self),
    {
        let mut has_capacity = self.installed_bytes.is_some();
        let mut has_speed = false;
        let mut i: usize = 0;
        while i < self.modules.len()
            invariant
                i <= self.modules@.len(),
                has_capacity == (self.installed_bytes is Some || exists|k: int|
                    0 <= k < i && (#[trigger] self.modules@[k]).capacity_bytes is Some),
                has_speed == exists|k: int| 0 <= k < i && (#[trigger] self.modules@[k]).speed_mhz is Some,
            decreases self.modules.len() - i,
        {
            if self.modules[i].capacity_bytes.is_some() {
                has_capacity = true;
            }
            if self.modules[i].speed_mhz.is_some() {
                has_speed = true;
            }
            i += 1;
        }
        let has_slots = self.modules.len() > 0 || self.installed_bytes.is_some();
        has_slots && has_capacity && has_speed
    }
}

pub type Values = Map<(Seq<char>, int, Seq<char>), Seq<char>>;

/// A positive number, its whole part read from the decimal text and capped
/// at the type's maximum.
pub open spec fn num_capped(m: Values, section: Seq<char>, index: int, name: Seq<char>, max: nat) -> Option<nat> {
    match lookup(m, section, index, name) {
        Some(v) => match decimal_whole(v, max) {
            Some(n) => if n > 0 {
                Some(n)
            } else {
                None
            },
            None => None,
        },
        None => None,
    }
}

pub open spec fn num32(m: Values, section: Seq<char>, index: int, name: Seq<char>) -> Option<u32> {
    match num_capped(m, section, index, name, u32::MAX as nat) {
        Some(n) => Some(n as u32),
        None => None,
    }
}

pub open spec fn num64(m: Values, section: Seq<char>, index: int, name: Seq<char>) -> Option<u64> {
    match num_capped(m, section, index, name, u64::MAX as nat) {
        Some(n) => Some(n as u64),
        None => None,
    }
}

/// Kibibytes as bytes, capped at `u64::MAX`.
pub open spec fn kib_bytes(kb: Option<u64>) -> Option<u64> {
    match kb {
        Some(k) => Some(
            if k * 1024 > u64::MAX {
                u64::MAX
            } else {
                (k * 1024) as u64
            },
        ),
        None => None,
    }
}

pub open spec fn processor_spec(p: ProcessorIdentity, m: Values) -> bool {
    &&& opt_view(p.name) == text_value(lookup(m, "cpu"@, 0, "name"@), false)
    &&& opt_view(p.manufacturer) == text_value(lookup(m, "cpu"@, 0, "manufacturer"@), false)
    &&& p.cores == num32(m, "cpu"@, 0, "cores"@)
    &&& p.logical_processors == num32(m, "cpu"@, 0, "logical"@)
    &&& p.max_mhz == num32(m, "cpu"@, 0, "max_mhz"@)
    &&& p.current_mhz == num32(m, "cpu"@, 0, "current_mhz"@)
    &&& p.l2_kb == num32(m, "cpu"@, 0, "l2_kb"@)
    &&& p.l3_kb == num32(m, "cpu"@, 0, "l3_kb"@)
}

pub open spec fn module_at(r: MemoryModuleReading, m: Values, index: int) -> bool {
    &&& opt_view(r.locator) == text_value(lookup(m, "module"@, index, "locator"@), false)
    &&& r.capacity_bytes == num64(m, "module"@, index, "capacity_bytes"@)
    &&& r.speed_mhz == (if num32(m, "module"@, index, "speed_mhz"@) is Some {
        num32(m, "module"@, index, "speed_mhz"@)
    } else {
        num32(m, "module"@, index, "configured_mhz"@)
    })
    &&& opt_view(r.part_number) == text_value(lookup(m, "module"@, index, "part_number"@), false)
}

pub open spec fn identity_sections() -> Seq<Seq<char>> {
    seq![
        "cpu"@,
        "memory"@,
        "module"@,
    ]
}

pub open spec fn identity_names() -> Seq<Seq<char>> {
    seq![
        "source_status"@,
        "record_count"@,
        "present"@,
        "name"@,
        "manufacturer"@,
        "cores"@,
        "logical"@,
        "max_mhz"@,
        "current_mhz"@,
        "l2_kb"@,
        "l3_kb"@,
        "total_kb"@,
        "available_kb"@,
        "locator"@,
        "capacity_bytes"@,
        "speed_mhz"@,
        "configured_mhz"@,
        "part_number"@,
    ]
}

/// `p` is what the identity protocol output `text` says.
pub open spec fn cpu_memory_probe_of(p: CpuMemoryProbe, text: Seq<char>) -> bool {
    let m = parse_spec(
        text,
        MAX_PROTOCOL_LINES as nat,
        MAX_INDEX as nat,
        MAX_VALUE_BYTES as nat,
        identity_sections(),
        identity_names(),
        false,
    );
    let idx = present_indices(m, "module"@, (MAX_INDEX + 1) as nat);
    &&& (match p.processor {
        Some(c) => flag_spec(m, "cpu"@, 0, "present"@) && processor_spec(c, m),
        None => !flag_spec(m, "cpu"@, 0, "present"@),
    })
    &&& p.modules@.len() == idx.len()
    &&& forall|i: int| 0 <= i < p.modules@.len() ==> module_at(#[trigger] p.modules@[i], m, idx[i])
    &&& p.installed_bytes == kib_bytes(num64(m, "memory"@, 0, "total_kb"@))
    &&& p.available_bytes == kib_bytes(num64(m, "memory"@, 0, "available_kb"@))
    &&& statuses_from(p.sources@, m)
    &&& p.probe_error is None
}

fn number_u32(values: &ProtocolValues, section: &str, index: usize, name: &str) -> (r: Option<u32>)
    ensures
        r == num32(values.map(), section@, index as int, name@),
{
    match values.lookup_value(section, index, name) {
        Some(v) => match parse_decimal_whole(&v, 0xffff_ffff) {
            Some(n) => if n > 0 {
                Some(n as u32)
            } else {
                None
            },
            None => None,
        },
        None => None,
    }
}

fn number_u64(values: &ProtocolValues, section: &str, index: usize, name: &str) -> (r: Option<u64>)
    ensures
        r == num64(values.map(), section@, index as int, name@),
{
    match values.lookup_value(section, index, name) {
        Some(v) => match parse_decimal_whole(&v, u64::MAX) {
            Some(n) => if n > 0 {
                Some(n)
            } else {
                None
            },
            None => None,
        },
        None => None,
    }
}

fn kib(kb: Option<u64>) -> (r: Option<u64>)
    ensures
        r == kib_bytes(kb),
{
    match kb {
        Some(k) => Some(
            if k > u64::MAX / 1024 {
                u64::MAX
            } else {
                k * 1024
            },
        ),
        None => None,
    }
}

fn module_list(values: &ProtocolValues) -> (out: Vec<MemoryModuleReading>)
    ensures
        out@.len() == present_indices(values.map(), "module"@, (MAX_INDEX + 1) as nat).len(),
        forall|i: int|
            0 <= i < out@.len() ==> module_at(
                #[trigger] out@[i],
                values.map(),
                present_indices(values.map(), "module"@, (MAX_INDEX + 1) as nat)[i],
            ),
{
    let mut out: Vec<MemoryModuleReading> = Vec::new();
    let mut index: usize = 0;
    while index <= MAX_INDEX
        invariant
            index <= MAX_INDEX + 1,
            out@.len() == present_indices(values.map(), "module"@, index as nat).len(),
            forall|i: int|
                0 <= i < out@.len() ==> module_at(
                    #[trigger] out@[i],
                    values.map(),
                    present_indices(values.map(), "module"@, index as nat)[i],
                ),
        decreases MAX_INDEX + 1 - index,
    {
        if values.flag("module", index, "present") {
            let speed = match number_u32(values, "module", index, "speed_mhz") {
                Some(s) => Some(s),
                None => number_u32(values, "module", index, "configured_mhz"),
            };
            out.push(
                MemoryModuleReading {
                    locator: values.text("module", index, "locator", false),
                    capacity_bytes: number_u64(values, "module", index, "capacity_bytes"),
                    speed_mhz: speed,
                    part_number: values.text("module", index, "part_number", false),
                },
            );
        }
        index += 1;
    }
    out
}

#[must_use]
pub fn parse_probe(text: &str) -> (p: CpuMemoryProbe)
    ensures
        cpu_memory_probe_of(p, text@),
{
    let sections: Vec<&str> = vec![
        "cpu",
        "memory",
        "module",
    ];
    let names: Vec<&str> = vec![
        "source_status",
        "record_count",
        "present",
        "name",
        "manufacturer",
        "cores",
        "logical",
        "max_mhz",
        "current_mhz",
        "l2_kb",
        "l3_kb",
        "total_kb",
        "available_kb",
        "locator",
        "capacity_bytes",
        "speed_mhz",
        "configured_mhz",
        "part_number",
    ];
    proof {
        assert(strs(sections@) =~= identity_sections());
        assert(strs(names@) =~= identity_names());
    }
    let values = parse_protocol(
        text,
        MAX_PROTOCOL_LINES,
        MAX_INDEX,
        MAX_VALUE_BYTES,
        sections.as_slice(),
        names.as_slice(),
        false,
    );
    let processor = if values.flag("cpu", 0, "present") {
        Some(
            ProcessorIdentity {
                name: values.text("cpu", 0, "name", false),
                manufacturer: values.text("cpu", 0, "manufacturer", false),
                cores: number_u32(&values, "cpu", 0, "cores"),
                logical_processors: number_u32(&values, "cpu", 0, "logical"),
                max_mhz: number_u32(&values, "cpu", 0, "max_mhz"),
                current_mhz: number_u32(&values, "cpu", 0, "current_mhz"),
                l2_kb: number_u32(&values, "cpu", 0, "l2_kb"),
                l3_kb: number_u32(&values, "cpu", 0, "l3_kb"),
            },
        )
    } else {
        None
    };
    CpuMemoryProbe {
        processor,
        modules: module_list(&values),
        installed_bytes: kib(number_u64(&values, "memory", 0, "total_kb")),
        available_bytes: kib(number_u64(&values, "memory", 0, "available_kb")),
        sources: reported_sources(&values),
        probe_error: None,
    }
}

} // verus!
