//! USB controllers, hubs and attached devices for Advance scan, read from
//! Windows classes. Nothing is written to a device.

use vstd::prelude::*;
use crate::probe_protocol::{
    flag_spec, lookup, opt_view, parse_protocol, parse_spec, present_indices, strs, text_value,
    wire_outcome, ProtocolValues, WireOutcome,
};
use crate::numtext::parse_u64_spec;
use crate::text::{append_all, append_str, chars_of, join, lex_less, lex_lt, lemma_lex_total, string_of};
use crate::json::lemma_join_push;

verus! {

pub const MAX_PROTOCOL_LINES: usize = 768;
pub const MAX_VALUE_BYTES: usize = 2048;
pub const MAX_INDEX: usize = 48;

/// Lists USB controllers, hubs and attached devices with their speeds.
pub const USB_SCRIPT: &'static str = r#"
$ErrorActionPreference = 'Stop'
$ProgressPreference = 'SilentlyContinue'

function Emit-Value([string]$section, [int]$index, [string]$name, $value) {
    if ($null -eq $value) { return }
    $text = [Convert]::ToString($value, [Globalization.CultureInfo]::InvariantCulture)
    if ($null -eq $text) { return }
    $text = $text.Trim()
    if ($text.Length -eq 0) { return }
    $bytes = [Text.Encoding]::UTF8.GetBytes($text)
    $hex = -join ($bytes | ForEach-Object { $_.ToString('x2') })
    [Console]::Out.WriteLine("$section`t$index`t$name`t$hex")
}

function Emit-Status([string]$section, $errorRecord) {
    $status = 'collection_error'
    if ($null -ne $errorRecord) {
        $hresult = $errorRecord.Exception.HResult
        $native = $errorRecord.Exception.NativeErrorCode
        if (($hresult -eq -2147024891) -or ($native -eq 5)) { $status = 'permission_denied' }
        elseif ($errorRecord.Exception -is [Management.Automation.CommandNotFoundException]) { $status = 'unsupported' }
        elseif ("$($errorRecord.Exception.Message)" -match 'not supported|Invalid class|Not found') { $status = 'unsupported' }
    }
    Emit-Value $section 0 'source_status' $status
}

function Speed-FromText([string]$text) {
    if ([string]::IsNullOrWhiteSpace($text)) { return $null }
    if ($text -match 'SuperSpeedPlus|USB 3\.2|USB3\.2') { return 'USB 3.2' }
    if ($text -match 'SuperSpeed|USB 3\.0|USB 3\.1|USB3|USB 3') { return 'USB 3.0' }
    if ($text -match 'USB 2\.0|USB2|High-Speed|USB 2') { return 'USB 2.0' }
    if ($text -match 'USB 1\.1|USB 1\.0|Full-Speed|Low-Speed') { return 'USB 1.x' }
    if ($text -match 'USB30_HUB|USB\\USB30') { return 'USB 3.0' }
    if ($text -match 'USB20_HUB|USB\\USB20') { return 'USB 2.0' }
    return $null
}

try {
    $items = @(Get-CimInstance -ClassName Win32_USBController -Property Name,Manufacturer,Status,DeviceID -ErrorAction Stop)
    Emit-Value 'controller' 0 'source_status' 'reported'
    Emit-Value 'controller' 0 'record_count' $items.Count
    for ($i = 0; $i -lt $items.Count; $i++) {
        $c = $items[$i]
        Emit-Value 'controller' $i 'present' $true
        Emit-Value 'controller' $i 'name' $c.Name
        Emit-Value 'controller' $i 'manufacturer' $c.Manufacturer
        Emit-Value 'controller' $i 'status' $c.Status
        $speed = Speed-FromText ([string]$c.Name)
        if ($speed) { Emit-Value 'controller' $i 'speed' $speed }
    }
} catch { Emit-Status 'controller' $_ }

try {
    $items = @(Get-CimInstance -ClassName Win32_USBHub -Property Name,Status,DeviceID,Description -ErrorAction Stop)
    Emit-Value 'hub' 0 'source_status' 'reported'
    Emit-Value 'hub' 0 'record_count' $items.Count
    for ($i = 0; $i -lt $items.Count; $i++) {
        $h = $items[$i]
        Emit-Value 'hub' $i 'present' $true
        Emit-Value 'hub' $i 'name' $h.Name
        Emit-Value 'hub' $i 'description' $h.Description
        $speed = Speed-FromText ("$($h.Name) $($h.Description) $($h.DeviceID)")
        if ($speed) { Emit-Value 'hub' $i 'speed' $speed }
        $root = $false
        if ("$($h.Name) $($h.Description)" -match 'Root Hub') { $root = $true }
        Emit-Value 'hub' $i 'root_hub' $root
    }
} catch { Emit-Status 'hub' $_ }

try {
    $items = @(Get-CimInstance -ClassName Win32_PnPEntity -Filter "PNPClass='USB'" -Property Name,Caption,Manufacturer,PNPDeviceID,HardwareID,CompatibleID,PNPClass,Status -ErrorAction Stop)
    Emit-Value 'device' 0 'source_status' 'reported'
    $index = 0
    foreach ($d in $items) {
        $label = if (-not [string]::IsNullOrWhiteSpace([string]$d.Caption)) { [string]$d.Caption } else { [string]$d.Name }
        if ([string]::IsNullOrWhiteSpace($label)) { continue }
        if ($label -match 'Root Hub|USB Composite Device|Generic USB Hub|USB Hub') { continue }
        $hw = @()
        if ($null -ne $d.HardwareID) { $hw += @($d.HardwareID) }
        if ($null -ne $d.CompatibleID) { $hw += @($d.CompatibleID) }
        $joined = ($hw | ForEach-Object { [string]$_ }) -join ' '
        Emit-Value 'device' $index 'present' $true
        Emit-Value 'device' $index 'occupied' $true
        Emit-Value 'device' $index 'name' $label
        Emit-Value 'device' $index 'manufacturer' $d.Manufacturer
        $speed = Speed-FromText ("$label $joined")
        if ($speed) { Emit-Value 'device' $index 'speed' $speed }
        try {
            $addr = Get-PnpDeviceProperty -InstanceId $d.PNPDeviceID -KeyName 'DEVPKEY_Device_Address' -ErrorAction Stop
            if ($null -ne $addr.Data -and [int]$addr.Data -gt 0) {
                Emit-Value 'device' $index 'port_index' $addr.Data
            }
        } catch {}
        $index++
        if ($index -ge 48) { break }
    }
    Emit-Value 'device' 0 'record_count' $index
} catch { Emit-Status 'device' $_ }
"#;

/// Which Windows class a USB value came from.
#[derive(Debug, Clone, Copy, PartialEq, Eq, Structural)]
#[non_exhaustive]
pub enum UsbSource {
    Controller,
    Hub,
    Device,
}

impl UsbSource {
    pub open spec fn label_text(self) -> Seq<char> {
        match self {
            UsbSource::Controller => "USB controllers"@,
            UsbSource::Hub => "USB hubs"@,
            UsbSource::Device => "Attached USB devices"@,
        }
    }

    #[must_use]
    pub fn label(self) -> (s: &'static str)
        ensures
            s@ == self.label_text(),
    {
        match self {
            UsbSource::Controller => "USB controllers",
            UsbSource::Hub => "USB hubs",
            UsbSource::Device => "Attached USB devices",
        }
    }

    pub open spec fn section_text(self) -> Seq<char> {
        match self {
            UsbSource::Controller => "controller"@,
            UsbSource::Hub => "hub"@,
            UsbSource::Device => "device"@,
        }
    }

    fn section(self) -> (s: &'static str)
        ensures
            s@ == self.section_text(),
    {
        match self {
            UsbSource::Controller => "controller",
            UsbSource::Hub => "hub",
            UsbSource::Device => "device",
        }
    }
}

/// Every source, in report order.
pub open spec fn source_at(i: int) -> UsbSource {
    if i == 0 {
        UsbSource::Controller
    } else if i == 1 {
        UsbSource::Hub
    } else {
        UsbSource::Device
    }
}

fn all_sources() -> (v: Vec<UsbSource>)
    ensures
        v@.len() == 3,
        forall|i: int| 0 <= i < 3 ==> v@[i] == source_at(i),
{
    vec![
        UsbSource::Controller,
        UsbSource::Hub,
        UsbSource::Device,
    ]
}

/// Why a source did or did not answer.
#[derive(Debug, Clone, Copy, PartialEq, Eq, Structural)]
#[non_exhaustive]
pub enum SourceOutcome {
    Reported,
    NotQueried,
    PermissionDenied,
    Unsupported,
    CollectionError,
}

pub open spec fn outcome_of(w: WireOutcome) -> SourceOutcome {
    match w {
        WireOutcome::Reported => SourceOutcome::Reported,
        WireOutcome::NotQueried => SourceOutcome::NotQueried,
        WireOutcome::PermissionDenied => SourceOutcome::PermissionDenied,
        WireOutcome::Unsupported => SourceOutcome::Unsupported,
        WireOutcome::CollectionError => SourceOutcome::CollectionError,
    }
}

impl SourceOutcome {
    pub open spec fn customer_text(self) -> Seq<char> {
        match self {
            SourceOutcome::Reported => "Answered"@,
            SourceOutcome::NotQueried => "Not queried on this PC"@,
            SourceOutcome::PermissionDenied => "Refused without administrator rights"@,
            SourceOutcome::Unsupported => "Not available on this PC"@,
            SourceOutcome::CollectionError => "Windows returned an error"@,
        }
    }

    #[must_use]
    pub fn customer_label(self) -> (s: &'static str)
        ensures
            s@ == self.customer_text(),
    {
        match self {
            SourceOutcome::Reported => "Answered",
            SourceOutcome::NotQueried => "Not queried on this PC",
            SourceOutcome::PermissionDenied => "Refused without administrator rights",
            SourceOutcome::Unsupported => "Not available on this PC",
            SourceOutcome::CollectionError => "Windows returned an error",
        }
    }

    fn from_wire(w: WireOutcome) -> (o: Self)
        ensures
            o == outcome_of(w),
    {
        match w {
            WireOutcome::Reported => SourceOutcome::Reported,
            WireOutcome::NotQueried => SourceOutcome::NotQueried,
            WireOutcome::PermissionDenied => SourceOutcome::PermissionDenied,
            WireOutcome::Unsupported => SourceOutcome::Unsupported,
            WireOutcome::CollectionError => SourceOutcome::CollectionError,
        }
    }
}

#[derive(Debug, Clone, Copy, PartialEq, Eq, Structural)]
pub struct SourceStatus {
    pub source: UsbSource,
    pub outcome: SourceOutcome,
}

/// The status of every source, none queried.
pub open spec fn none_queried(sources: Seq<SourceStatus>) -> bool {
    &&& sources.len() == 3
    &&& forall|i: int|
        0 <= i < 3 ==> sources[i] == (SourceStatus {
            source: source_at(i),
            outcome: SourceOutcome::NotQueried,
        })
}

/// The status of every source, as its status line reports.
pub open spec fn statuses_from(sources: Seq<SourceStatus>, m: Map<(Seq<char>, int, Seq<char>), Seq<char>>) -> bool {
    &&& sources.len() == 3
    &&& forall|i: int|
        0 <= i < 3 ==> sources[i] == (SourceStatus {
            source: source_at(i),
            outcome: outcome_of(wire_outcome(lookup(m, source_at(i).section_text(), 0, "source_status"@))),
        })
}

fn unqueried_sources() -> (sources: Vec<SourceStatus>)
    ensures
        none_queried(sources@),
{
    let all = all_sources();
    let mut sources: Vec<SourceStatus> = Vec::new();
    let mut i: usize = 0;
    while i < all.len()
        invariant
            i <= 3,
            all@.len() == 3,
            forall|k: int| 0 <= k < 3 ==> all@[k] == source_at(k),
            sources@.len() == i,
            forall|k: int|
                0 <= k < i ==> sources@[k] == (SourceStatus {
                    source: source_at(k),
                    outcome: SourceOutcome::NotQueried,
                }),
        decreases all.len() - i,
    {
        sources.push(SourceStatus { source: all[i], outcome: SourceOutcome::NotQueried });
        i += 1;
    }
    sources
}

fn reported_sources(values: &ProtocolValues) -> (sources: Vec<SourceStatus>)
    ensures
        statuses_from(sources@, values.map()),
{
    let all = all_sources();
    let mut sources: Vec<SourceStatus> = Vec::new();
    let mut i: usize = 0;
    while i < all.len()
        invariant
            i <= 3,
            all@.len() == 3,
            forall|k: int| 0 <= k < 3 ==> all@[k] == source_at(k),
            sources@.len() == i,
            forall|k: int|
                0 <= k < i ==> sources@[k] == (SourceStatus {
                    source: source_at(k),
                    outcome: outcome_of(
                        wire_outcome(lookup(values.map(), source_at(k).section_text(), 0, "source_status"@)),
                    ),
                }),
        decreases all.len() - i,
    {
        let source = all[i];
        let outcome = SourceOutcome::from_wire(values.outcome(source.section()));
        sources.push(SourceStatus { source, outcome });
        i += 1;
    }
    sources
}

/// The outcome recorded for a source; not queried when none is.
pub open spec fn outcome_in(sources: Seq<SourceStatus>, source: UsbSource) -> SourceOutcome
    decreases sources.len(),
{
    if sources.len() == 0 {
        SourceOutcome::NotQueried
    } else if sources[0].source == source {
        sources[0].outcome
    } else {
        outcome_in(sources.drop_first(), source)
    }
}

fn find_outcome(sources: &Vec<SourceStatus>, source: UsbSource) -> (o: SourceOutcome)
    ensures
        o == outcome_in(sources@, source),
{
    let mut i: usize = 0;
    assert(sources@.skip(0) =~= sources@);
    while i < sources.len()
        invariant
            i <= sources@.len(),
            outcome_in(sources@, source) == outcome_in(sources@.skip(i as int), source),
        decreases sources.len() - i,
    {
        assert(sources@.skip(i as int).drop_first() =~= sources@.skip(i + 1));
        assert(sources@.skip(i as int)[0] == sources@[i as int]);
        if sources[i].source == source {
            return sources[i].outcome;
        }
        i += 1;
    }
    SourceOutcome::NotQueried
}

#[derive(Debug, Clone, PartialEq, Eq)]
pub struct UsbNamed {
    pub name: String,
    pub speed: Option<String>,
    pub root_hub: bool,
}

#[derive(Debug, Clone, PartialEq, Eq)]
pub struct UsbAttached {
    pub name: String,
    pub manufacturer: Option<String>,
    pub speed: Option<String>,
    pub port_index: Option<u32>,
}

#[derive(Debug, Clone, PartialEq, Eq)]
pub struct UsbProbe {
    pub controllers: Vec<UsbNamed>,
    pub hubs: Vec<UsbNamed>,
    pub devices: Vec<UsbAttached>,
    pub sources: Vec<SourceStatus>,
    pub probe_error: Option<&'static str>,
}

/// Each item comes strictly after the one before it.
pub open spec fn strictly_ascending(q: Seq<Seq<char>>) -> bool {
    forall|i: int| 0 <= i < q.len() - 1 ==> lex_lt(#[trigger] q[i], q[i + 1])
}

impl UsbProbe {
    /// A probe that could not run, saying why; no source was queried.
    #[must_use]
    pub fn unavailable(reason: &'static str) -> (p: Self)
        ensures
            p.controllers@.len() == 0,
            p.hubs@.len() == 0,
            p.devices@.len() == 0,
            none_queried(p.sources@),
            p.probe_error == Some(reason),
    {
        UsbProbe {
            controllers: Vec::new(),
            hubs: Vec::new(),
            devices: Vec::new(),
            sources: unqueried_sources(),
            probe_error: Some(reason),
        }
    }

    /// True when Windows answered the controller class, which is enough to
    /// score the two topology points.
    #[must_use]
    pub fn topology_enumerated(&self) -> (r: bool)
        ensures
            r == (self.probe_error is None && exists|i: int|
                0 <= i < self.sources@.len() && (#[trigger] self.sources@[i]).source
                    == UsbSource::Controller && self.sources@[i].outcome == SourceOutcome::Reported),
    {
        if self.probe_error.is_some() {
            return false;
        }
        let mut i: usize = 0;
        while i < self.sources.len()
            invariant
                i <= self.sources@.len(),
                self.probe_error is None,
                forall|k: int|
                    0 <= k < i ==> !((#[trigger] self.sources@[k]).source == UsbSource::Controller
                        && self.sources@[k].outcome == SourceOutcome::Reported),
            decreases self.sources.len() - i,
        {
            let s = self.sources[i];
            if s.source == UsbSource::Controller && s.outcome == SourceOutcome::Reported {
                assert(self.sources@[i as int] == s);
                return true;
            }
            i += 1;
        }
        false
    }

    /// The distinct device speeds in text order, joined with commas; none
    /// when no device reports one.
    #[must_use]
    pub fn speed_summary(&self) -> (r: Option<String>)
        ensures
            match r {
                None => forall|i: int| 0 <= i < self.devices@.len() ==> (#[trigger] self.devices@[i]).speed is None,
                Some(text) => exists|q: Seq<Seq<char>>|
                    strictly_ascending(q) && q.len() > 0 && (forall|s: Seq<char>|
                        q.contains(s) <==> exists|i: int|
                            0 <= i < self.devices@.len() && (#[trigger] opt_view(self.devices@[i].speed)) == Some(s))
                        && text@ == join(q, ", "@),
            },
    {
        let mut sorted: Vec<Vec<char>> = Vec::new();
        let mut i: usize = 0;
        while i < self.devices.len()
            invariant
                i <= self.devices@.len(),
                strictly_ascending(crate::text::views(sorted@)),
                forall|s: Seq<char>|
                    crate::text::views(sorted@).contains(s) <==> exists|k: int|
                        0 <= k < i && (#[trigger] opt_view(self.devices@[k].speed)) == Some(s),
            decreases self.devices.len() - i,
        {
            let ghost before = crate::text::views(sorted@);
            match &self.devices[i].speed {
                Some(speed) => {
                    let x = chars_of(speed.as_str());
                    insert_sorted(&mut sorted, x);
                },
                None => {},
            }
            assert(forall|s: Seq<char>|
                crate::text::views(sorted@).contains(s) <==> (before.contains(s) || opt_view(
                    self.devices@[i as int].speed,
                ) == Some(s)));
            proof {
                assert forall|s: Seq<char>|
                    crate::text::views(sorted@).contains(s) <==> exists|k: int|
                        0 <= k < i + 1 && (#[trigger] opt_view(self.devices@[k].speed)) == Some(s) by {
                    if opt_view(self.devices@[i as int].speed) == Some(s) {
                        assert(0 <= i < i + 1);
                    }
                    if exists|k: int| 0 <= k < i + 1 && (#[trigger] opt_view(self.devices@[k].speed)) == Some(s) {
                        let k = choose|k: int| 0 <= k < i + 1 && (#[trigger] opt_view(self.devices@[k].speed)) == Some(s);
                        if k < i {
                            assert(before.contains(s));
                        }
                    }
                }
            }
            i += 1;
        }
        if sorted.len() == 0 {
            proof {
                assert forall|k: int| 0 <= k < self.devices@.len() implies (#[trigger] self.devices@[k]).speed is None by {
                    if self.devices@[k].speed is Some {
                        let s = opt_view(self.devices@[k].speed).unwrap();
                        assert(crate::text::views(sorted@).contains(s));
                    }
                }
            }
            return None;
        }
        let mut out: Vec<char> = Vec::new();
        let mut j: usize = 0;
        while j < sorted.len()
            invariant
                j <= sorted@.len(),
                out@ == join(crate::text::views(sorted@).take(j as int), ", "@),
            decreases sorted.len() - j,
        {
            proof {
                reveal_strlit(", ");
                lemma_join_push(crate::text::views(sorted@).take(j as int), sorted@[j as int]@, ", "@);
                assert(crate::text::views(sorted@).take(j + 1) =~= crate::text::views(sorted@).take(j as int).push(sorted@[j as int]@));
            }
            if j > 0 {
                append_str(&mut out, ", ");
            }
            append_all(&mut out, &sorted[j]);
            j += 1;
        }
        assert(crate::text::views(sorted@).take(sorted@.len() as int) =~= crate::text::views(sorted@));
        Some(string_of(&out))
    }

    #[must_use]
    pub fn outcome_for(&self, source: UsbSource) -> (o: SourceOutcome)
        ensures
            o == outcome_in(self.sources@, source),
    {
        find_outcome(&self.sources, source)
    }
}

/// Adds `x` to an ascending list of distinct texts, keeping it so.
pub fn insert_sorted(sorted: &mut Vec<Vec<char>>, x: Vec<char>)
    requires
        strictly_ascending(crate::text::views(old(sorted)@)),
    ensures
        strictly_ascending(crate::text::views(final(sorted)@)),
        forall|s: Seq<char>|
            crate::text::views(final(sorted)@).contains(s) <==> (crate::text::views(old(sorted)@).contains(s)
                || s == x@),
{
    let ghost before = crate::text::views(sorted@);
    let mut i: usize = 0;
    while i < sorted.len() && lex_less(&sorted[i], &x)
        invariant
            i <= sorted@.len(),
            before == crate::text::views(sorted@),
            strictly_ascending(before),
            forall|k: int| 0 <= k < i ==> lex_lt(#[trigger] before[k], x@),
        decreases sorted.len() - i,
    {
        i += 1;
    }
    if i < sorted.len() && crate::text::seq_eq(&sorted[i], &x) {
        proof {
            assert(before[i as int] == x@);
        }
        return;
    }
    proof {
        if i < sorted@.len() {
            lemma_lex_total(before[i as int], x@);
            assert(lex_lt(x@, before[i as int]));
        }
    }
    sorted.insert(i, x);
    proof {
        let after = crate::text::views(sorted@);
        assert(after =~= before.insert(i as int, x@));
        assert forall|j: int| 0 <= j < after.len() - 1 implies lex_lt(#[trigger] after[j], after[j + 1]) by {
            let k = j + 1;
            if k < i {
                assert(after[k - 1] == before[k - 1] && after[k] == before[k]);
                assert(lex_lt(before[k - 1], before[k]));
            } else if k == i {
                assert(after[k - 1] == before[k - 1]);
                assert(after[k] == x@);
                assert(lex_lt(before[k - 1], x@));
            } else if k == i + 1 {
                assert(after[k - 1] == x@);
                assert(after[k] == before[i as int]);
            } else {
                assert(after[k - 1] == before[k - 2] && after[k] == before[k - 1]);
                assert(lex_lt(before[k - 2], before[k - 1]));
            }
        }
        assert forall|s: Seq<char>| after.contains(s) <==> (before.contains(s) || s == x@) by {
            if after.contains(s) {
                let k = choose|k: int| 0 <= k < after.len() && after[k] == s;
                if k < i {
                    assert(before[k] == s);
                } else if k > i {
                    assert(before[k - 1] == s);
                }
            }
            if before.contains(s) {
                let k = choose|k: int| 0 <= k < before.len() && before[k] == s;
                if k < i {
                    assert(after[k] == s);
                } else {
                    assert(after[k + 1] == s);
                }
            }
            if s == x@ {
                assert(after[i as int] == s);
            }
        }
    }
}

pub type Values = Map<(Seq<char>, int, Seq<char>), Seq<char>>;

/// A positive whole number.
pub open spec fn num(m: Values, section: Seq<char>, index: int, name: Seq<char>) -> Option<u64> {
    match lookup(m, section, index, name) {
        Some(v) => match parse_u64_spec(v) {
            Some(n) => if n > 0 {
                Some(n)
            } else {
                None
            },
            None => None,
        },
        None => None,
    }
}

/// The indexes below `n` that are present and named, in order.
pub open spec fn named_indices(m: Values, section: Seq<char>, n: nat) -> Seq<int>
    decreases n,
{
    if n == 0 {
        Seq::<int>::empty()
    } else {
        let before = named_indices(m, section, (n - 1) as nat);
        if flag_spec(m, section, n - 1, "present"@) && text_value(lookup(m, section, n - 1, "name"@), false) is Some {
            before.push(n - 1)
        } else {
            before
        }
    }
}

pub open spec fn named_at(u: UsbNamed, m: Values, section: Seq<char>, index: int) -> bool {
    &&& text_value(lookup(m, section, index, "name"@), false) == Some(u.name@)
    &&& opt_view(u.speed) == text_value(lookup(m, section, index, "speed"@), false)
    &&& u.root_hub == flag_spec(m, section, index, "root_hub"@)
}

pub open spec fn attached_at(u: UsbAttached, m: Values, index: int) -> bool {
    &&& text_value(lookup(m, "device"@, index, "name"@), false) == Some(u.name@)
    &&& opt_view(u.manufacturer) == text_value(lookup(m, "device"@, index, "manufacturer"@), false)
    &&& opt_view(u.speed) == text_value(lookup(m, "device"@, index, "speed"@), false)
    &&& u.port_index == (match num(m, "device"@, index, "port_index"@) {
        Some(v) => if v <= u32::MAX {
            Some(v as u32)
        } else {
            None
        },
        None => None,
    })
}

pub open spec fn usb_sections() -> Seq<Seq<char>> {
    seq![
        "controller"@,
        "hub"@,
        "device"@,
    ]
}

pub open spec fn usb_names() -> Seq<Seq<char>> {
    seq![
        "source_status"@,
        "record_count"@,
        "present"@,
        "name"@,
        "manufacturer"@,
        "status"@,
        "description"@,
        "speed"@,
        "root_hub"@,
        "occupied"@,
        "port_index"@,
    ]
}

/// `p` is what the USB protocol output `text` says: only present devices
/// with a real name are listed.
pub open spec fn usb_probe_of(p: UsbProbe, text: Seq<char>) -> bool {
    let m = parse_spec(
        text,
        MAX_PROTOCOL_LINES as nat,
        MAX_INDEX as nat,
        MAX_VALUE_BYTES as nat,
        usb_sections(),
        usb_names(),
        false,
    );
    let ci = named_indices(m, "controller"@, (MAX_INDEX + 1) as nat);
    let hi = named_indices(m, "hub"@, (MAX_INDEX + 1) as nat);
    let di = named_indices(m, "device"@, (MAX_INDEX + 1) as nat);
    &&& p.controllers@.len() == ci.len()
    &&& forall|i: int| 0 <= i < ci.len() ==> named_at(#[trigger] p.controllers@[i], m, "controller"@, ci[i])
    &&& p.hubs@.len() == hi.len()
    &&& forall|i: int| 0 <= i < hi.len() ==> named_at(#[trigger] p.hubs@[i], m, "hub"@, hi[i])
    &&& p.devices@.len() == di.len()
    &&& forall|i: int| 0 <= i < di.len() ==> attached_at(#[trigger] p.devices@[i], m, di[i])
    &&& statuses_from(p.sources@, m)
    &&& p.probe_error is None
}

fn named_list(values: &ProtocolValues, section: &str) -> (out: Vec<UsbNamed>)
    ensures
        out@.len() == named_indices(values.map(), section@, (MAX_INDEX + 1) as nat).len(),
        forall|i: int|
            0 <= i < out@.len() ==> named_at(
                #[trigger] out@[i],
                values.map(),
                section@,
                named_indices(values.map(), section@, (MAX_INDEX + 1) as nat)[i],
            ),
{
    let mut out: Vec<UsbNamed> = Vec::new();
    let mut index: usize = 0;
    while index <= MAX_INDEX
        invariant
            index <= MAX_INDEX + 1,
            out@.len() == named_indices(values.map(), section@, index as nat).len(),
            forall|i: int|
                0 <= i < out@.len() ==> named_at(
                    #[trigger] out@[i],
                    values.map(),
                    section@,
                    named_indices(values.map(), section@, index as nat)[i],
                ),
        decreases MAX_INDEX + 1 - index,
    {
        if values.flag(section, index, "present") {
            match values.text(section, index, "name", false) {
                Some(name) => {
                    out.push(
                        UsbNamed {
                            name,
                            speed: values.text(section, index, "speed", false),
                            root_hub: values.flag(section, index, "root_hub"),
                        },
                    );
                },
                None => {},
            }
        }
        index += 1;
    }
    out
}

fn attached_list(values: &ProtocolValues) -> (out: Vec<UsbAttached>)
    ensures
        out@.len() == named_indices(values.map(), "device"@, (MAX_INDEX + 1) as nat).len(),
        forall|i: int|
            0 <= i < out@.len() ==> attached_at(
                #[trigger] out@[i],
                values.map(),
                named_indices(values.map(), "device"@, (MAX_INDEX + 1) as nat)[i],
            ),
{
    let mut out: Vec<UsbAttached> = Vec::new();
    let mut index: usize = 0;
    while index <= MAX_INDEX
        invariant
            index <= MAX_INDEX + 1,
            out@.len() == named_indices(values.map(), "device"@, index as nat).len(),
            forall|i: int|
                0 <= i < out@.len() ==> attached_at(
                    #[trigger] out@[i],
                    values.map(),
                    named_indices(values.map(), "device"@, index as nat)[i],
                ),
        decreases MAX_INDEX + 1 - index,
    {
        if values.flag("device", index, "present") {
            match values.text("device", index, "name", false) {
                Some(name) => {
                    let port_index = match values.number("device", index, "port_index") {
                        Some(v) => if v > 0 && v <= 0xffff_ffff {
                            Some(v as u32)
                        } else {
                            None
                        },
                        None => None,
                    };
                    out.push(
                        UsbAttached {
                            name,
                            manufacturer: values.text("device", index, "manufacturer", false),
                            speed: values.text("device", index, "speed", false),
                            port_index,
                        },
                    );
                },
                None => {},
            }
        }
        index += 1;
    }
    out
}

#[must_use]
pub fn parse_probe(text: &str) -> (p: UsbProbe)
    ensures
        usb_probe_of(p, text@),
{
    let sections: Vec<&str> = vec![
        "controller",
        "hub",
        "device",
    ];
    let names: Vec<&str> = vec![
        "source_status",
        "record_count",
        "present",
        "name",
        "manufacturer",
        "status",
        "description",
        "speed",
        "root_hub",
        "occupied",
        "port_index",
    ];
    proof {
        assert(strs(sections@) =~= usb_sections());
        assert(strs(names@) =~= usb_names());
    }
    let values = parse_protocol(
        text,
        MAX_PROTOCOL_LINES,
        MAX_INDEX,
        MAX_VALUE_BYTES,
        sections.as_slice(),
        names.as_slice(),
        false,
    );
    UsbProbe {
        controllers: named_list(&values, "controller"),
        hubs: named_list(&values, "hub"),
        devices: attached_list(&values),
        sources: reported_sources(&values),
        probe_error: None,
    }
}

} // verus!
