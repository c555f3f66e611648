//! Display panel identity and radio telemetry for Advance scan.
//!
//! Display: `WmiMonitorID` plus the first 128 bytes of the raw EDID block when
//! Windows exposes it. Native width and height come from the EDID preferred
//! timing, never from the current desktop mode.
//!
//! Radios: Wi-Fi, Bluetooth and Ethernet adapters. Hardware addresses are
//! never kept. Link state is printed as Windows reports it.

use vstd::prelude::*;
use crate::probe_protocol::{
    all_hex, decimal32, flag_spec, hex_bytes, looks_like_mac, looks_like_mac_exec, lookup,
    nibble, opt_view, parse_protocol, parse_spec, present_indices, strs, text_value,
    wire_outcome, ProtocolValues, WireOutcome,
};
use crate::text::{chars_of, is_hex_digit, owned, string_of};

verus! {

pub const MAX_PROTOCOL_LINES: usize = 512;
pub const MAX_VALUE_BYTES: usize = 2048;
pub const MAX_INDEX: usize = 8;

/// Reads monitor identity, the EDID block, the video mode and the Wi-Fi,
/// Bluetooth and Ethernet adapters. Never asks for a hardware address.
pub const DISPLAY_RADIO_SCRIPT: &'static str = r#"
$ErrorActionPreference = 'Stop'
$ProgressPreference = 'SilentlyContinue'
$btAdapter = $false

function Emit-Value([string]$section, [int]$index, [string]$name, $value) {
    if ($null -eq $value) { return }
    $text = [Convert]::ToString($value, [Globalization.CultureInfo]::InvariantCulture)
    if ($null -eq $text) { return }
    $text = $text.Trim()
    if ($text.Length -eq 0) { return }
    if ($text -match '(?i)([0-9A-F]{2}[:-]){5}[0-9A-F]{2}') { return }
    $bytes = [Text.Encoding]::UTF8.GetBytes($text)
    $hex = -join ($bytes | ForEach-Object { $_.ToString('x2') })
    [Console]::Out.WriteLine("$section`t$index`t$name`t$hex")
}

function Emit-Status([string]$section, $errorRecord) {
    $status = 'collection_error'
    if ($null -ne $errorRecord) {
        $hresult = $errorRecord.Exception.HResult
        $native = $errorRecord.Exception.NativeErrorCode
        if (($hresult -eq -2147024891) -or ($native -eq 5) -or ("$($errorRecord.Exception.Message)" -match 'Access is denied|UnauthorizedAccess')) { $status = 'permission_denied' }
        elseif ($errorRecord.Exception -is [Management.Automation.CommandNotFoundException]) { $status = 'unsupported' }
        elseif ("$($errorRecord.Exception.Message)" -match 'not supported|Invalid class|Not found') { $status = 'unsupported' }
    }
    Emit-Value $section 0 'source_status' $status
}

function From-UInt16Chars($values) {
    if ($null -eq $values) { return $null }
    $chars = @()
    foreach ($v in @($values)) {
        if ([int]$v -gt 0) { $chars += [char]([int]$v) }
    }
    if ($chars.Count -eq 0) { return $null }
    return -join $chars
}

try {
    $items = @(Get-CimInstance -Namespace 'root/wmi' -ClassName WmiMonitorID -ErrorAction Stop)
    Emit-Value 'panel' 0 'source_status' 'reported'
    Emit-Value 'panel' 0 'record_count' $items.Count
    for ($i = 0; $i -lt $items.Count; $i++) {
        if ($i -ge 8) { break }
        $p = $items[$i]
        Emit-Value 'panel' $i 'present' $true
        Emit-Value 'panel' $i 'manufacturer' (From-UInt16Chars $p.ManufacturerName)
        Emit-Value 'panel' $i 'name' (From-UInt16Chars $p.UserFriendlyName)
        Emit-Value 'panel' $i 'product_code' (From-UInt16Chars $p.ProductCodeID)
        Emit-Value 'panel' $i 'serial_number' (From-UInt16Chars $p.SerialNumberID)
        if ($p.WeekOfManufacture -and ([int]$p.WeekOfManufacture) -gt 0) { Emit-Value 'panel' $i 'manufacture_week' $p.WeekOfManufacture }
        if ($p.YearOfManufacture -and ([int]$p.YearOfManufacture) -gt 0) { Emit-Value 'panel' $i 'manufacture_year' $p.YearOfManufacture }
        $instance = [string]$p.InstanceName
        if ($instance -match 'DISPLAY\\' -and $instance -notmatch 'Default_Monitor') { Emit-Value 'panel' $i 'internal_panel' $true }
    }
} catch { Emit-Status 'panel' $_ }

try {
    $items = @(Get-CimInstance -Namespace 'root/wmi' -ClassName WmiMonitorRawEEdidV1Block -ErrorAction Stop)
    Emit-Value 'edid' 0 'source_status' 'reported'
    for ($i = 0; $i -lt $items.Count; $i++) {
        if ($i -ge 8) { break }
        $block = $items[$i].UserData
        if ($null -eq $block -or $block.Length -lt 128) { continue }
        $slice = $block[0..127]
        $hex = -join ($slice | ForEach-Object { $_.ToString('x2') })
        Emit-Value 'edid' $i 'present' $true
        Emit-Value 'edid' $i 'block_hex' $hex
    }
} catch { Emit-Status 'edid' $_ }

try {
    $items = @(Get-CimInstance -ClassName Win32_VideoController -Property Name,CurrentHorizontalResolution,CurrentVerticalResolution,CurrentRefreshRate,CurrentBitsPerPixel,AdapterCompatibility,PNPDeviceID -ErrorAction Stop)
    Emit-Value 'video' 0 'source_status' 'reported'
    $index = 0
    foreach ($v in $items) {
        $name = [string]$v.Name
        if ([string]::IsNullOrWhiteSpace($name)) { continue }
        if ($name -match 'Basic Display|Remote Desktop|Meta|Virtual') { continue }
        Emit-Value 'video' $index 'present' $true
        Emit-Value 'video' $index 'name' $name
        if ($v.CurrentHorizontalResolution) { Emit-Value 'video' $index 'current_width' $v.CurrentHorizontalResolution }
        if ($v.CurrentVerticalResolution) { Emit-Value 'video' $index 'current_height' $v.CurrentVerticalResolution }
        if ($v.CurrentRefreshRate) { Emit-Value 'video' $index 'refresh_hz' $v.CurrentRefreshRate }
        if ($v.CurrentBitsPerPixel) { Emit-Value 'video' $index 'bit_depth' $v.CurrentBitsPerPixel }
        $index++
        if ($index -ge 8) { break }
    }
    Emit-Value 'video' 0 'record_count' $index
} catch { Emit-Status 'video' $_ }

try {
    $adapters = @(Get-NetAdapter -ErrorAction Stop)
    Emit-Value 'adapter' 0 'source_status' 'reported'
    $wifiIndex = 0
    $ethIndex = 0
    $btAdapter = $false
    foreach ($a in $adapters) {
        $desc = [string]$a.InterfaceDescription
        $name = [string]$a.Name
        $status = [string]$a.Status
        $medium = [string]$a.PhysicalMediaType
        $joined = "$name $desc $medium"
        if ($joined -match 'Wi-?Fi|Wireless|802\.11') {
            if ($wifiIndex -eq 0) { Emit-Value 'wifi' 0 'source_status' 'reported' }
            Emit-Value 'wifi' $wifiIndex 'present' $true
            Emit-Value 'wifi' $wifiIndex 'name' $name
            Emit-Value 'wifi' $wifiIndex 'description' $desc
            Emit-Value 'wifi' $wifiIndex 'state' $status
            if ($a.LinkSpeed) { Emit-Value 'wifi' $wifiIndex 'link_mbps' ([int64]([double]$a.LinkSpeed / 1000000)) }
            $wifiIndex++
        } elseif ($joined -match 'Bluetooth') {
            $btAdapter = $true
        } elseif ($joined -match '802\.3|Ethernet' -or $medium -match '802\.3') {
            if ($ethIndex -eq 0) { Emit-Value 'ethernet' 0 'source_status' 'reported' }
            Emit-Value 'ethernet' $ethIndex 'present' $true
            Emit-Value 'ethernet' $ethIndex 'name' $name
            Emit-Value 'ethernet' $ethIndex 'description' $desc
            Emit-Value 'ethernet' $ethIndex 'state' $status
            if ($a.LinkSpeed) { Emit-Value 'ethernet' $ethIndex 'link_mbps' ([int64]([double]$a.LinkSpeed / 1000000)) }
            $ethIndex++
        }
    }
    if ($wifiIndex -eq 0) { Emit-Value 'wifi' 0 'source_status' 'reported'; Emit-Value 'wifi' 0 'record_count' 0 }
    if ($ethIndex -eq 0) { Emit-Value 'ethernet' 0 'source_status' 'reported'; Emit-Value 'ethernet' 0 'record_count' 0 }
    if ($btAdapter) {
        Emit-Value 'bluetooth' 0 'source_status' 'reported'
        Emit-Value 'bluetooth' 0 'present' $true
        Emit-Value 'bluetooth' 0 'state' 'adapter'
    }
} catch { Emit-Status 'adapter' $_; Emit-Status 'wifi' $_; Emit-Status 'ethernet' $_ }

try {
    $wlan = netsh wlan show interfaces 2>$null | Out-String
    if ($wlan -and $wlan -match 'SSID') {
        if ($wlan -match 'Signal\s*:\s*(\d+)\s*%') { Emit-Value 'wifi' 0 'signal_quality' $Matches[1] }
        if ($wlan -match 'Radio type\s*:\s*(.+)') { Emit-Value 'wifi' 0 'radio_standards' $Matches[1].Trim() }
        if ($wlan -match 'Receive rate.+:\s*([\d.]+)') { Emit-Value 'wifi' 0 'receive_mbps' $Matches[1] }
        if ($wlan -match 'Transmit rate.+:\s*([\d.]+)') { Emit-Value 'wifi' 0 'transmit_mbps' $Matches[1] }
        if ($wlan -match 'State\s*:\s*(.+)') { Emit-Value 'wifi' 0 'state' $Matches[1].Trim() }
    }
} catch {}

try {
    $items = @(Get-PnpDevice -Class Bluetooth -Status OK -ErrorAction Stop)
    if ($items.Count -gt 0) {
        Emit-Value 'bluetooth' 0 'source_status' 'reported'
        Emit-Value 'bluetooth' 0 'present' $true
        $label = [string]$items[0].FriendlyName
        if (-not [string]::IsNullOrWhiteSpace($label)) { Emit-Value 'bluetooth' 0 'name' $label }
        Emit-Value 'bluetooth' 0 'state' 'present'
    } elseif (-not $btAdapter) {
        Emit-Value 'bluetooth' 0 'source_status' 'reported'
        Emit-Value 'bluetooth' 0 'record_count' 0
    }
} catch {
    if (-not $btAdapter) { Emit-Status 'bluetooth' $_ }
}
"#;

/// Which Windows class a display or radio value came from.
#[derive(Debug, Clone, Copy, PartialEq, Eq, Structural)]
#[non_exhaustive]
pub enum DisplayRadioSource {
    Panel,
    Edid,
    Video,
    Wifi,
    Bluetooth,
    Ethernet,
}

impl DisplayRadioSource {
    pub open spec fn label_text(self) -> Seq<char> {
        match self {
            DisplayRadioSource::Panel => "Monitor identity"@,
            DisplayRadioSource::Edid => "EDID block"@,
            DisplayRadioSource::Video => "Video controller"@,
            DisplayRadioSource::Wifi => "Wi-Fi adapter"@,
            DisplayRadioSource::Bluetooth => "Bluetooth radio"@,
            DisplayRadioSource::Ethernet => "Ethernet adapter"@,
        }
    }

    #[must_use]
    pub fn label(self) -> (s: &'static str)
        ensures
            s@ == self.label_text(),
    {
        match self {
            DisplayRadioSource::Panel => "Monitor identity",
            DisplayRadioSource::Edid => "EDID block",
            DisplayRadioSource::Video => "Video controller",
            DisplayRadioSource::Wifi => "Wi-Fi adapter",
            DisplayRadioSource::Bluetooth => "Bluetooth radio",
            DisplayRadioSource::Ethernet => "Ethernet adapter",
        }
    }

    pub open spec fn section_text(self) -> Seq<char> {
        match self {
            DisplayRadioSource::Panel => "panel"@,
            DisplayRadioSource::Edid => "edid"@,
            DisplayRadioSource::Video => "video"@,
            DisplayRadioSource::Wifi => "wifi"@,
            DisplayRadioSource::Bluetooth => "bluetooth"@,
            DisplayRadioSource::Ethernet => "ethernet"@,
        }
    }

    fn section(self) -> (s: &'static str)
        ensures
            s@ == self.section_text(),
    {
        match self {
            DisplayRadioSource::Panel => "panel",
            DisplayRadioSource::Edid => "edid",
            DisplayRadioSource::Video => "video",
            DisplayRadioSource::Wifi => "wifi",
            DisplayRadioSource::Bluetooth => "bluetooth",
            DisplayRadioSource::Ethernet => "ethernet",
        }
    }
}

/// Every source, in report order.
pub open spec fn source_at(i: int) -> DisplayRadioSource {
    if i == 0 {
        DisplayRadioSource::Panel
    } else if i == 1 {
        DisplayRadioSource::Edid
    } else if i == 2 {
        DisplayRadioSource::Video
    } else if i == 3 {
        DisplayRadioSource::Wifi
    } else if i == 4 {
        DisplayRadioSource::Bluetooth
    } else {
        DisplayRadioSource::Ethernet
    }
}

fn all_sources() -> (v: Vec<DisplayRadioSource>)
    ensures
        v@.len() == 6,
        forall|i: int| 0 <= i < 6 ==> v@[i] == source_at(i),
{
    vec![
        DisplayRadioSource::Panel,
        DisplayRadioSource::Edid,
        DisplayRadioSource::Video,
        DisplayRadioSource::Wifi,
        DisplayRadioSource::Bluetooth,
        DisplayRadioSource::Ethernet,
    ]
}

/// Why a source did or did not answer.
#[derive(Debug, Clone, Copy, PartialEq, Eq, Structural)]
#[non_exhaustive]
pub enum SourceOutcome {
    Reported,
    NotQueried,
    PermissionDenied,
    Unsupported,
    CollectionError,
}

pub open spec fn outcome_of(w: WireOutcome) -> SourceOutcome {
    match w {
        WireOutcome::Reported => SourceOutcome::Reported,
        WireOutcome::NotQueried => SourceOutcome::NotQueried,
        WireOutcome::PermissionDenied => SourceOutcome::PermissionDenied,
        WireOutcome::Unsupported => SourceOutcome::Unsupported,
        WireOutcome::CollectionError => SourceOutcome::CollectionError,
    }
}

impl SourceOutcome {
    pub open spec fn customer_text(self) -> Seq<char> {
        match self {
            SourceOutcome::Reported => "Answered"@,
            SourceOutcome::NotQueried => "Not queried on this PC"@,
            SourceOutcome::PermissionDenied => "Refused without administrator rights"@,
            SourceOutcome::Unsupported => "Not available on this PC"@,
            SourceOutcome::CollectionError => "Windows returned an error"@,
        }
    }

    #[must_use]
    pub fn customer_label(self) -> (s: &'static str)
        ensures
            s@ == self.customer_text(),
    {
        match self {
            SourceOutcome::Reported => "Answered",
            SourceOutcome::NotQueried => "Not queried on this PC",
            SourceOutcome::PermissionDenied => "Refused without administrator rights",
            SourceOutcome::Unsupported => "Not available on this PC",
            SourceOutcome::CollectionError => "Windows returned an error",
        }
    }

    fn from_wire(w: WireOutcome) -> (o: Self)
        ensures
            o == outcome_of(w),
    {
        match w {
            WireOutcome::Reported => SourceOutcome::Reported,
            WireOutcome::NotQueried => SourceOutcome::NotQueried,
            WireOutcome::PermissionDenied => SourceOutcome::PermissionDenied,
            WireOutcome::Unsupported => SourceOutcome::Unsupported,
            WireOutcome::CollectionError => SourceOutcome::CollectionError,
        }
    }
}

#[derive(Debug, Clone, Copy, PartialEq, Eq, Structural)]
pub struct SourceStatus {
    pub source: DisplayRadioSource,
    pub outcome: SourceOutcome,
}

/// The status of every source, none queried.
pub open spec fn none_queried(sources: Seq<SourceStatus>) -> bool {
    &&& sources.len() == 6
    &&& forall|i: int|
        0 <= i < 6 ==> sources[i] == (SourceStatus {
            source: source_at(i),
            outcome: SourceOutcome::NotQueried,
        })
}

/// The status of every source, as its status line reports.
pub open spec fn statuses_from(sources: Seq<SourceStatus>, m: Map<(Seq<char>, int, Seq<char>), Seq<char>>) -> bool {
    &&& sources.len() == 6
    &&& forall|i: int|
        0 <= i < 6 ==> sources[i] == (SourceStatus {
            source: source_at(i),
            outcome: outcome_of(wire_outcome(lookup(m, source_at(i).section_text(), 0, "source_status"@))),
        })
}

fn unqueried_sources() -> (sources: Vec<SourceStatus>)
    ensures
        none_queried(sources@),
{
    let all = all_sources();
    let mut sources: Vec<SourceStatus> = Vec::new();
    let mut i: usize = 0;
    while i < all.len()
        invariant
            i <= 6,
            all@.len() == 6,
            forall|k: int| 0 <= k < 6 ==> all@[k] == source_at(k),
            sources@.len() == i,
            forall|k: int|
                0 <= k < i ==> sources@[k] == (SourceStatus {
                    source: source_at(k),
                    outcome: SourceOutcome::NotQueried,
                }),
        decreases all.len() - i,
    {
        sources.push(SourceStatus { source: all[i], outcome: SourceOutcome::NotQueried });
        i += 1;
    }
    sources
}

fn reported_sources(values: &ProtocolValues) -> (sources: Vec<SourceStatus>)
    ensures
        statuses_from(sources@, values.map()),
{
    let all = all_sources();
    let mut sources: Vec<SourceStatus> = Vec::new();
    let mut i: usize = 0;
    while i < all.len()
        invariant
            i <= 6,
            all@.len() == 6,
            forall|k: int| 0 <= k < 6 ==> all@[k] == source_at(k),
            sources@.len() == i,
            forall|k: int|
                0 <= k < i ==> sources@[k] == (SourceStatus {
                    source: source_at(k),
                    outcome: outcome_of(
                        wire_outcome(lookup(values.map(), source_at(k).section_text(), 0, "source_status"@)),
                    ),
                }),
        decreases all.len() - i,
    {
        let source = all[i];
        let outcome = SourceOutcome::from_wire(values.outcome(source.section()));
        sources.push(SourceStatus { source, outcome });
        i += 1;
    }
    sources
}

/// The outcome recorded for a source; not queried when none is.
pub open spec fn outcome_in(sources: Seq<SourceStatus>, source: DisplayRadioSource) -> SourceOutcome
    decreases sources.len(),
{
    if sources.len() == 0 {
        SourceOutcome::NotQueried
    } else if sources[0].source == source {
        sources[0].outcome
    } else {
        outcome_in(sources.drop_first(), source)
    }
}

fn find_outcome(sources: &Vec<SourceStatus>, source: DisplayRadioSource) -> (o: SourceOutcome)
    ensures
        o == outcome_in(sources@, source),
{
    let mut i: usize = 0;
    assert(sources@.skip(0) =~= sources@);
    while i < sources.len()
        invariant
            i <= sources@.len(),
            outcome_in(sources@, source) == outcome_in(sources@.skip(i as int), source),
        decreases sources.len() - i,
    {
        assert(sources@.skip(i as int).drop_first() =~= sources@.skip(i + 1));
        assert(sources@.skip(i as int)[0] == sources@[i as int]);
        if sources[i].source == source {
            return sources[i].outcome;
        }
        i += 1;
    }
    SourceOutcome::NotQueried
}

#[derive(Debug, Clone, PartialEq, Eq)]
pub struct PanelReading {
    pub manufacturer: Option<String>,
    pub name: Option<String>,
    pub product_code: Option<String>,
    pub serial_number: Option<String>,
    pub manufacture_week: Option<u32>,
    pub manufacture_year: Option<u32>,
    pub native_width: Option<u32>,
    pub native_height: Option<u32>,
    pub current_width: Option<u32>,
    pub current_height: Option<u32>,
    pub refresh_hz: Option<u32>,
    pub bit_depth: Option<u32>,
    pub internal_panel: bool,
}

impl PanelReading {
    #[must_use]
    pub fn identified(&self) -> (r: bool)
        ensures
            r == (self.manufacturer is Some || self.name is Some || self.native_width is Some),
    {
        self.manufacturer.is_some() || self.name.is_some() || self.native_width.is_some()
    }

    /// The panel's name, else its manufacturer, else a generic label.
    #[must_use]
    pub fn display_name(&self) -> (s: String)
        ensures
            s@ == (match self.name {
                Some(n) => n@,
                None => match self.manufacturer {
                    Some(m) => m@,
                    None => "Display panel"@,
                },
            }),
    {
        match &self.name {
            Some(n) => n.clone(),
            None => match &self.manufacturer {
                Some(m) => m.clone(),
                None => owned("Display panel"),
            },
        }
    }
}

#[derive(Debug, Clone, PartialEq, Eq)]
pub struct WifiReading {
    pub name: Option<String>,
    pub description: Option<String>,
    pub state: Option<String>,
    pub signal_quality_percent: Option<u32>,
    pub receive_mbps: Option<u32>,
    pub transmit_mbps: Option<u32>,
    pub link_mbps: Option<u32>,
    pub radio_standards: Option<String>,
}

impl WifiReading {
    pub open spec fn reporting(self) -> bool {
        self.name is Some || self.description is Some || self.state is Some
            || self.signal_quality_percent is Some
    }

    #[must_use]
    pub fn present_and_reporting(&self) -> (r: bool)
        ensures
            r == self.reporting(),
    {
        self.name.is_some() || self.description.is_some() || self.state.is_some()
            || self.signal_quality_percent.is_some()
    }
}

#[derive(Debug, Clone, PartialEq, Eq)]
pub struct BluetoothReading {
    pub name: Option<String>,
    pub state: Option<String>,
}

#[derive(Debug, Clone, PartialEq, Eq)]
pub struct EthernetReading {
    pub name: Option<String>,
    pub description: Option<String>,
    pub state: Option<String>,
    pub link_mbps: Option<u32>,
}

impl EthernetReading {
    #[must_use]
    pub fn link_state_readable(&self) -> (r: bool)
        ensures
            r == self.state is Some,
    {
        self.state.is_some()
    }
}

#[derive(Debug, Clone, PartialEq, Eq)]
pub struct DisplayRadioProbe {
    pub panels: Vec<PanelReading>,
    pub wifi: Option<WifiReading>,
    pub bluetooth: Option<BluetoothReading>,
    pub ethernet: Vec<EthernetReading>,
    pub sources: Vec<SourceStatus>,
    pub probe_error: Option<&'static str>,
}

impl DisplayRadioProbe {
    /// A probe that could not run, saying why; no source was queried.
    #[must_use]
    pub fn unavailable(reason: &'static str) -> (p: Self)
        ensures
            p.panels@.len() == 0,
            p.wifi is None,
            p.bluetooth is None,
            p.ethernet@.len() == 0,
            none_queried(p.sources@),
            p.probe_error == Some(reason),
    {
        DisplayRadioProbe {
            panels: Vec::new(),
            wifi: None,
            bluetooth: None,
            ethernet: Vec::new(),
            sources: unqueried_sources(),
            probe_error: Some(reason),
        }
    }

    #[must_use]
    pub fn outcome_for(&self, source: DisplayRadioSource) -> (o: SourceOutcome)
        ensures
            o == outcome_in(self.sources@, source),
    {
        find_outcome(&self.sources, source)
    }

    #[must_use]
    pub fn wifi_reporting(&self) -> (r: bool)
        ensures
            r == (match self.wifi {
                Some(w) => w.reporting(),
                None => false,
            }),
    {
        match &self.wifi {
            Some(w) => w.present_and_reporting(),
            None => false,
        }
    }

    #[must_use]
    pub fn bluetooth_present(&self) -> (r: bool)
        ensures
            r == self.bluetooth is Some,
    {
        self.bluetooth.is_some()
    }

    #[must_use]
    pub fn ethernet_link_readable(&self) -> (r: bool)
        ensures
            r == exists|i: int| 0 <= i < self.ethernet@.len() && (#[trigger] self.ethernet@[i]).state is Some,
    {
        let mut i: usize = 0;
        while i < self.ethernet.len()
            invariant
                i <= self.ethernet@.len(),
                forall|k: int| 0 <= k < i ==> (#[trigger] self.ethernet@[k]).state is None,
            decreases self.ethernet.len() - i,
        {
            if self.ethernet[i].link_state_readable() {
                return true;
            }
            i += 1;
        }
        false
    }

    #[must_use]
    pub fn panel_identified(&self) -> (r: bool)
        ensures
            r == exists|i: int|
                0 <= i < self.panels@.len() && {
                    let p = #[trigger] self.panels@[i];
                    p.manufacturer is Some || p.name is Some || p.native_width is Some
                },
    {
        let mut i: usize = 0;
        while i < self.panels.len()
            invariant
                i <= self.panels@.len(),
                forall|k: int|
                    0 <= k < i ==> {
                        let p = #[trigger] self.panels@[k];
                        !(p.manufacturer is Some || p.name is Some || p.native_width is Some)
                    },
            decreases self.panels.len() - i,
        {
            if self.panels[i].identified() {
                return true;
            }
            i += 1;
        }
        false
    }
}

pub type Values = Map<(Seq<char>, int, Seq<char>), Seq<char>>;

/// A text field, never blank, a placeholder or a hardware address.
pub open spec fn text_clean(v: Option<Seq<char>>) -> Option<Seq<char>> {
    match text_value(v, false) {
        Some(t) => if looks_like_mac(t) {
            None
        } else {
            Some(t)
        },
        None => None,
    }
}

fn text(values: &ProtocolValues, section: &str, index: usize, name: &str) -> (r: Option<String>)
    ensures
        opt_view(r) == text_clean(lookup(values.map(), section@, index as int, name@)),
{
    match values.text(section, index, name, false) {
        Some(t) => {
            if looks_like_mac_exec(&chars_of(t.as_str())) {
                None
            } else {
                Some(t)
            }
        },
        None => None,
    }
}

/// The first 128 bytes of an EDID block written in hex, when the text
/// holds that many and they start with the EDID header's zero bytes.
pub open spec fn edid_bytes(hex: Seq<char>) -> Option<Seq<u8>> {
    if hex.len() >= 256 && all_hex(hex.take(256)) {
        let b = hex_bytes(hex.take(256));
        if b[0] == 0 && b[7] == 0 {
            Some(b)
        } else {
            None
        }
    } else {
        None
    }
}

/// The three-letter manufacturer code packed into bytes 8 and 9.
pub open spec fn edid_maker(b: Seq<u8>) -> Option<Seq<char>> {
    let p = b[8] as int * 256 + b[9] as int;
    let c1 = (p / 1024) % 32 + 64;
    let c2 = (p / 32) % 32 + 64;
    let c3 = p % 32 + 64;
    if p == 0 {
        None
    } else if 65 <= c1 <= 90 && 65 <= c2 <= 90 && 65 <= c3 <= 90 {
        Some(seq![c1 as char, c2 as char, c3 as char])
    } else {
        None
    }
}

pub open spec fn edid_week(b: Seq<u8>) -> Option<u32> {
    if b[16] > 0 && b[16] <= 54 {
        Some(b[16] as u32)
    } else {
        None
    }
}

pub open spec fn edid_year(b: Seq<u8>) -> Option<u32> {
    if b[17] > 0 {
        Some((1990 + b[17]) as u32)
    } else {
        None
    }
}

pub open spec fn dtd_blank(b: Seq<u8>) -> bool {
    forall|i: int| 54 <= i < 72 ==> b[i] == 0
}

/// The native width from the preferred timing descriptor, at least 640.
pub open spec fn edid_width(b: Seq<u8>) -> Option<u32> {
    let w = b[56] as int + (b[58] as int / 16) * 256;
    if dtd_blank(b) || w < 640 {
        None
    } else {
        Some(w as u32)
    }
}

/// The native height from the preferred timing descriptor, at least 480.
pub open spec fn edid_height(b: Seq<u8>) -> Option<u32> {
    let h = b[59] as int + (b[61] as int / 16) * 256;
    if dtd_blank(b) || h < 480 {
        None
    } else {
        Some(h as u32)
    }
}

pub open spec fn or_else<T>(a: Option<T>, b: Option<T>) -> Option<T> {
    if a is Some {
        a
    } else {
        b
    }
}

/// The EDID bytes stored for a panel index.
pub open spec fn edid_for(m: Values, index: int) -> Option<Seq<u8>> {
    match text_clean(lookup(m, "edid"@, index, "block_hex"@)) {
        Some(h) => edid_bytes(h),
        None => None,
    }
}

pub open spec fn edid_field<T>(e: Option<Seq<u8>>, f: spec_fn(Seq<u8>) -> Option<T>) -> Option<T> {
    match e {
        Some(b) => f(b),
        None => None,
    }
}

pub open spec fn panel_at(p: PanelReading, m: Values, index: int) -> bool {
    let e = edid_for(m, index);
    &&& opt_view(p.manufacturer) == or_else(
        text_clean(lookup(m, "panel"@, index, "manufacturer"@)),
        edid_field(e, |b: Seq<u8>| edid_maker(b)),
    )
    &&& opt_view(p.name) == text_clean(lookup(m, "panel"@, index, "name"@))
    &&& opt_view(p.product_code) == text_clean(lookup(m, "panel"@, index, "product_code"@))
    &&& opt_view(p.serial_number) == text_clean(lookup(m, "panel"@, index, "serial_number"@))
    &&& p.manufacture_week == or_else(
        decimal32(m, "panel"@, index, "manufacture_week"@),
        edid_field(e, |b: Seq<u8>| edid_week(b)),
    )
    &&& p.manufacture_year == or_else(
        decimal32(m, "panel"@, index, "manufacture_year"@),
        edid_field(e, |b: Seq<u8>| edid_year(b)),
    )
    &&& p.native_width == edid_field(e, |b: Seq<u8>| edid_width(b))
    &&& p.native_height == edid_field(e, |b: Seq<u8>| edid_height(b))
    &&& p.current_width == or_else(
        decimal32(m, "video"@, index, "current_width"@),
        decimal32(m, "video"@, 0, "current_width"@),
    )
    &&& p.current_height == or_else(
        decimal32(m, "video"@, index, "current_height"@),
        decimal32(m, "video"@, 0, "current_height"@),
    )
    &&& p.refresh_hz == or_else(
        decimal32(m, "video"@, index, "refresh_hz"@),
        decimal32(m, "video"@, 0, "refresh_hz"@),
    )
    &&& p.bit_depth == or_else(
        decimal32(m, "video"@, index, "bit_depth"@),
        decimal32(m, "video"@, 0, "bit_depth"@),
    )
    &&& p.internal_panel == flag_spec(m, "panel"@, index, "internal_panel"@)
}

/// The indexes below `n` where a panel or an EDID block is present.
pub open spec fn panel_indices(m: Values, n: nat) -> Seq<int>
    decreases n,
{
    if n == 0 {
        Seq::<int>::empty()
    } else {
        let before = panel_indices(m, (n - 1) as nat);
        if flag_spec(m, "panel"@, n - 1, "present"@) || flag_spec(m, "edid"@, n - 1, "present"@) {
            before.push(n - 1)
        } else {
            before
        }
    }
}

pub open spec fn wifi_spec(w: Option<WifiReading>, m: Values) -> bool {
    if !flag_spec(m, "wifi"@, 0, "present"@) && text_clean(lookup(m, "wifi"@, 0, "state"@)) is None
        && decimal32(m, "wifi"@, 0, "signal_quality"@) is None {
        w is None
    } else {
        match w {
            Some(r) => {
                &&& opt_view(r.name) == text_clean(lookup(m, "wifi"@, 0, "name"@))
                &&& opt_view(r.description) == text_clean(lookup(m, "wifi"@, 0, "description"@))
                &&& opt_view(r.state) == text_clean(lookup(m, "wifi"@, 0, "state"@))
                &&& r.signal_quality_percent == decimal32(m, "wifi"@, 0, "signal_quality"@)
                &&& r.receive_mbps == decimal32(m, "wifi"@, 0, "receive_mbps"@)
                &&& r.transmit_mbps == decimal32(m, "wifi"@, 0, "transmit_mbps"@)
                &&& r.link_mbps == decimal32(m, "wifi"@, 0, "link_mbps"@)
                &&& opt_view(r.radio_standards) == text_clean(lookup(m, "wifi"@, 0, "radio_standards"@))
            },
            None => false,
        }
    }
}

pub open spec fn bluetooth_spec(b: Option<BluetoothReading>, m: Values) -> bool {
    if !flag_spec(m, "bluetooth"@, 0, "present"@) {
        b is None
    } else {
        match b {
            Some(r) => opt_view(r.name) == text_clean(lookup(m, "bluetooth"@, 0, "name"@)) && opt_view(
                r.state,
            ) == text_clean(lookup(m, "bluetooth"@, 0, "state"@)),
            None => false,
        }
    }
}

pub open spec fn ethernet_at(e: EthernetReading, m: Values, index: int) -> bool {
    &&& opt_view(e.name) == text_clean(lookup(m, "ethernet"@, index, "name"@))
    &&& opt_view(e.description) == text_clean(lookup(m, "ethernet"@, index, "description"@))
    &&& opt_view(e.state) == text_clean(lookup(m, "ethernet"@, index, "state"@))
    &&& e.link_mbps == decimal32(m, "ethernet"@, index, "link_mbps"@)
}

pub open spec fn display_sections() -> Seq<Seq<char>> {
    seq![
        "panel"@,
        "edid"@,
        "video"@,
        "adapter"@,
        "wifi"@,
        "bluetooth"@,
        "ethernet"@,
    ]
}

pub open spec fn display_names() -> Seq<Seq<char>> {
    seq![
        "source_status"@,
        "record_count"@,
        "present"@,
        "manufacturer"@,
        "name"@,
        "product_code"@,
        "serial_number"@,
        "manufacture_week"@,
        "manufacture_year"@,
        "internal_panel"@,
        "block_hex"@,
        "current_width"@,
        "current_height"@,
        "refresh_hz"@,
        "bit_depth"@,
        "description"@,
        "state"@,
        "signal_quality"@,
        "receive_mbps"@,
        "transmit_mbps"@,
        "link_mbps"@,
        "radio_standards"@,
    ]
}

/// `p` is what the display and radio protocol output `text` says, with
/// hardware addresses dropped.
pub open spec fn display_radio_probe_of(p: DisplayRadioProbe, text: Seq<char>) -> bool {
    let m = parse_spec(
        text,
        MAX_PROTOCOL_LINES as nat,
        MAX_INDEX as nat,
        MAX_VALUE_BYTES as nat,
        display_sections(),
        display_names(),
        true,
    );
    let pi = panel_indices(m, (MAX_INDEX + 1) as nat);
    let ei = present_indices(m, "ethernet"@, (MAX_INDEX + 1) as nat);
    &&& p.panels@.len() == pi.len()
    &&& forall|i: int| 0 <= i < pi.len() ==> panel_at(#[trigger] p.panels@[i], m, pi[i])
    &&& wifi_spec(p.wifi, m)
    &&& bluetooth_spec(p.bluetooth, m)
    &&& p.ethernet@.len() == ei.len()
    &&& forall|i: int| 0 <= i < ei.len() ==> ethernet_at(#[trigger] p.ethernet@[i], m, ei[i])
    &&& statuses_from(p.sources@, m)
    &&& p.probe_error is None
}

fn nibble_value(c: char) -> (r: Option<u8>)
    ensures
        match r {
            Some(v) => is_hex_digit(c) && v == nibble(c),
            None => !is_hex_digit(c),
        },
{
    if '0' <= c && c <= '9' {
        Some((c as u32 - 48) as u8)
    } else if 'a' <= c && c <= 'f' {
        Some((c as u32 - 87) as u8)
    } else if 'A' <= c && c <= 'F' {
        Some((c as u32 - 55) as u8)
    } else {
        None
    }
}

fn edid_bytes_of(hex: &Vec<char>) -> (r: Option<Vec<u8>>)
    ensures
        match r {
            Some(b) => edid_bytes(hex@) == Some(b@),
            None => edid_bytes(hex@) is None,
        },
{
    if hex.len() < 256 {
        return None;
    }
    let ghost h = hex@.take(256);
    let mut bytes: Vec<u8> = Vec::new();
    let mut k: usize = 0;
    while k < 128
        invariant
            k <= 128,
            hex@.len() >= 256,
            h == hex@.take(256),
            bytes@.len() == k,
            forall|j: int| 0 <= j < 2 * k ==> #[trigger] is_hex_digit(h[j]),
            forall|j: int| 0 <= j < k ==> bytes@[j] == hex_bytes(h)[j],
        decreases 128 - k,
    {
        let hi = nibble_value(hex[2 * k]);
        let lo = nibble_value(hex[2 * k + 1]);
        assert(h[2 * k as int] == hex@[2 * k as int]);
        assert(h[2 * k + 1] == hex@[2 * k + 1]);
        match (hi, lo) {
            (Some(a), Some(b)) => {
                bytes.push(16 * a + b);
            },
            _ => {
                proof {
                    if all_hex(h) {
                        assert(is_hex_digit(h[2 * k as int]));
                        assert(is_hex_digit(h[2 * k + 1]));
                    }
                }
                return None;
            },
        }
        k += 1;
    }
    proof {
        assert forall|j: int| 0 <= j < h.len() implies #[trigger] is_hex_digit(h[j]) by {}
        assert(bytes@ =~= hex_bytes(h));
    }
    if bytes[0] != 0 || bytes[7] != 0 {
        return None;
    }
    Some(bytes)
}

fn maker_of(b: &Vec<u8>) -> (r: Option<String>)
    requires
        b@.len() == 128,
    ensures
        opt_view(r) == edid_maker(b@),
{
    let p: u32 = (b[8] as u32) * 256 + b[9] as u32;
    if p == 0 {
        return None;
    }
    let c1 = (p / 1024) % 32 + 64;
    let c2 = (p / 32) % 32 + 64;
    let c3 = p % 32 + 64;
    if !(65 <= c1 && c1 <= 90 && 65 <= c2 && c2 <= 90 && 65 <= c3 && c3 <= 90) {
        return None;
    }
    let mut v: Vec<char> = Vec::new();
    v.push((c1 as u8) as char);
    v.push((c2 as u8) as char);
    v.push((c3 as u8) as char);
    assert(v@ =~= edid_maker(b@).unwrap());
    Some(string_of(&v))
}

fn blank_dtd(b: &Vec<u8>) -> (r: bool)
    requires
        b@.len() == 128,
    ensures
        r == dtd_blank(b@),
{
    let mut i: usize = 54;
    while i < 72
        invariant
            54 <= i <= 72,
            b@.len() == 128,
            forall|j: int| 54 <= j < i ==> b@[j] == 0,
        decreases 72 - i,
    {
        if b[i] != 0 {
            return false;
        }
        i += 1;
    }
    true
}

struct EdidTiming {
    manufacturer: Option<String>,
    width: Option<u32>,
    height: Option<u32>,
    week: Option<u32>,
    year: Option<u32>,
}

fn parse_edid_native(hex: &Vec<char>) -> (r: Option<EdidTiming>)
    ensures
        match r {
            Some(t) => edid_bytes(hex@) is Some && {
                let b = edid_bytes(hex@).unwrap();
                &&& opt_view(t.manufacturer) == edid_maker(b)
                &&& t.width == edid_width(b)
                &&& t.height == edid_height(b)
                &&& t.week == edid_week(b)
                &&& t.year == edid_year(b)
            },
            None => edid_bytes(hex@) is None,
        },
{
    let b = match edid_bytes_of(hex) {
        Some(b) => b,
        None => {
            return None;
        },
    };
    let week = if b[16] > 0 && b[16] <= 54 {
        Some(b[16] as u32)
    } else {
        None
    };
    let year = if b[17] > 0 {
        Some(1990 + b[17] as u32)
    } else {
        None
    };
    let blank = blank_dtd(&b);
    let w: u32 = b[56] as u32 + (b[58] as u32 / 16) * 256;
    let h: u32 = b[59] as u32 + (b[61] as u32 / 16) * 256;
    Some(
        EdidTiming {
            manufacturer: maker_of(&b),
            width: if blank || w < 640 {
                None
            } else {
                Some(w)
            },
            height: if blank || h < 480 {
                None
            } else {
                Some(h)
            },
            week,
            year,
        },
    )
}

fn either(a: Option<u32>, b: Option<u32>) -> (r: Option<u32>)
    ensures
        r == or_else(a, b),
{
    match a {
        Some(_) => a,
        None => b,
    }
}

fn panel(values: &ProtocolValues, index: usize) -> (p: PanelReading)
    ensures
        panel_at(p, values.map(), index as int),
{
    let edid = match text(values, "edid", index, "block_hex") {
        Some(h) => parse_edid_native(&chars_of(h.as_str())),
        None => None,
    };
    let ghost e = edid_for(values.map(), index as int);
    let manufacturer = match text(values, "panel", index, "manufacturer") {
        Some(m) => Some(m),
        None => match &edid {
            Some(t) => match &t.manufacturer {
                Some(m) => Some(m.clone()),
                None => None,
            },
            None => None,
        },
    };
    let (e_week, e_year, e_width, e_height) = match &edid {
        Some(t) => (t.week, t.year, t.width, t.height),
        None => (None, None, None, None),
    };
    PanelReading {
        manufacturer,
        name: text(values, "panel", index, "name"),
        product_code: text(values, "panel", index, "product_code"),
        serial_number: text(values, "panel", index, "serial_number"),
        manufacture_week: either(values.decimal_u32("panel", index, "manufacture_week"), e_week),
        manufacture_year: either(values.decimal_u32("panel", index, "manufacture_year"), e_year),
        native_width: e_width,
        native_height: e_height,
        current_width: either(
            values.decimal_u32("video", index, "current_width"),
            values.decimal_u32("video", 0, "current_width"),
        ),
        current_height: either(
            values.decimal_u32("video", index, "current_height"),
            values.decimal_u32("video", 0, "current_height"),
        ),
        refresh_hz: either(
            values.decimal_u32("video", index, "refresh_hz"),
            values.decimal_u32("video", 0, "refresh_hz"),
        ),
        bit_depth: either(
            values.decimal_u32("video", index, "bit_depth"),
            values.decimal_u32("video", 0, "bit_depth"),
        ),
        internal_panel: values.flag("panel", index, "internal_panel"),
    }
}

fn panel_list(values: &ProtocolValues) -> (out: Vec<PanelReading>)
    ensures
        out@.len() == panel_indices(values.map(), (MAX_INDEX + 1) as nat).len(),
        forall|i: int|
            0 <= i < out@.len() ==> panel_at(
                #[trigger] out@[i],
                values.map(),
                panel_indices(values.map(), (MAX_INDEX + 1) as nat)[i],
            ),
{
    let mut out: Vec<PanelReading> = Vec::new();
    let mut index: usize = 0;
    while index <= MAX_INDEX
        invariant
            index <= MAX_INDEX + 1,
            out@.len() == panel_indices(values.map(), index as nat).len(),
            forall|i: int|
                0 <= i < out@.len() ==> panel_at(
                    #[trigger] out@[i],
                    values.map(),
                    panel_indices(values.map(), index as nat)[i],
                ),
        decreases MAX_INDEX + 1 - index,
    {
        if values.flag("panel", index, "present") || values.flag("edid", index, "present") {
            out.push(panel(values, index));
        }
        index += 1;
    }
    out
}

fn wifi_reading(values: &ProtocolValues) -> (w: Option<WifiReading>)
    ensures
        wifi_spec(w, values.map()),
{
    let state = text(values, "wifi", 0, "state");
    let signal = values.decimal_u32("wifi", 0, "signal_quality");
    if !values.flag("wifi", 0, "present") && state.is_none() && signal.is_none() {
        return None;
    }
    Some(
        WifiReading {
            name: text(values, "wifi", 0, "name"),
            description: text(values, "wifi", 0, "description"),
            state,
            signal_quality_percent: signal,
            receive_mbps: values.decimal_u32("wifi", 0, "receive_mbps"),
            transmit_mbps: values.decimal_u32("wifi", 0, "transmit_mbps"),
            link_mbps: values.decimal_u32("wifi", 0, "link_mbps"),
            radio_standards: text(values, "wifi", 0, "radio_standards"),
        },
    )
}

fn bluetooth_reading(values: &ProtocolValues) -> (b: Option<BluetoothReading>)
    ensures
        bluetooth_spec(b, values.map()),
{
    if !values.flag("bluetooth", 0, "present") {
        return None;
    }
    Some(
        BluetoothReading {
            name: text(values, "bluetooth", 0, "name"),
            state: text(values, "bluetooth", 0, "state"),
        },
    )
}

fn ethernet_list(values: &ProtocolValues) -> (out: Vec<EthernetReading>)
    ensures
        out@.len() == present_indices(values.map(), "ethernet"@, (MAX_INDEX + 1) as nat).len(),
        forall|i: int|
            0 <= i < out@.len() ==> ethernet_at(
                #[trigger] out@[i],
                values.map(),
                present_indices(values.map(), "ethernet"@, (MAX_INDEX + 1) as nat)[i],
            ),
{
    let mut out: Vec<EthernetReading> = Vec::new();
    let mut index: usize = 0;
    while index <= MAX_INDEX
        invariant
            index <= MAX_INDEX + 1,
            out@.len() == present_indices(values.map(), "ethernet"@, index as nat).len(),
            forall|i: int|
                0 <= i < out@.len() ==> ethernet_at(
                    #[trigger] out@[i],
                    values.map(),
                    present_indices(values.map(), "ethernet"@, index as nat)[i],
                ),
        decreases MAX_INDEX + 1 - index,
    {
        if values.flag("ethernet", index, "present") {
            out.push(
                EthernetReading {
                    name: text(values, "ethernet", index, "name"),
                    description: text(values, "ethernet", index, "description"),
                    state: text(values, "ethernet", index, "state"),
                    link_mbps: values.decimal_u32("ethernet", index, "link_mbps"),
                },
            );
        }
        index += 1;
    }
    out
}

#[must_use]
pub fn parse_probe(text: &str) -> (p: DisplayRadioProbe)
    ensures
        display_radio_probe_of(p, text@),
{
    let sections: Vec<&str> = vec![
        "panel",
        "edid",
        "video",
        "adapter",
        "wifi",
        "bluetooth",
        "ethernet",
    ];
    let names: Vec<&str> = vec![
        "source_status",
        "record_count",
        "present",
        "manufacturer",
        "name",
        "product_code",
        "serial_number",
        "manufacture_week",
        "manufacture_year",
        "internal_panel",
        "block_hex",
        "current_width",
        "current_height",
        "refresh_hz",
        "bit_depth",
        "description",
        "state",
        "signal_quality",
        "receive_mbps",
        "transmit_mbps",
        "link_mbps",
        "radio_standards",
    ];
    proof {
        assert(strs(sections@) =~= display_sections());
        assert(strs(names@) =~= display_names());
    }
    let values = parse_protocol(
        text,
        MAX_PROTOCOL_LINES,
        MAX_INDEX,
        MAX_VALUE_BYTES,
        sections.as_slice(),
        names.as_slice(),
        true,
    );
    DisplayRadioProbe {
        panels: panel_list(&values),
        wifi: wifi_reading(&values),
        bluetooth: bluetooth_reading(&values),
        ethernet: ethernet_list(&values),
        sources: reported_sources(&values),
        probe_error: None,
    }
}

/// No text field of a probe reading can hold a hardware address.
pub proof fn hardware_addresses_never_kept(v: Option<Seq<char>>)
    ensures
        text_clean(v) is Some ==> !looks_like_mac(text_clean(v).unwrap()),
{
}

} // verus!
