//! Camera and microphone enumeration for Advance scan.
//!
//! Several PnP classes Windows actually uses for capture devices are asked,
//! and which class answered is recorded. Nothing is captured: no frame, no
//! sample, no file.

use vstd::prelude::*;
use crate::probe_protocol::{
    flag_spec, lookup, opt_view, parse_protocol, parse_spec, present_indices, strs, text_value,
    wire_outcome, ProtocolValues, WireOutcome,
};

verus! {

pub const MAX_PROTOCOL_LINES: usize = 512;
pub const MAX_VALUE_BYTES: usize = 2048;
pub const MAX_DEVICE_INDEX: usize = 16;

/// Lists cameras and microphones; reports that no frame was captured and no
/// audio recorded.
pub const CAPTURE_SCRIPT: &'static str = r#"
$ErrorActionPreference = 'Stop'
$ProgressPreference = 'SilentlyContinue'

function Emit-Value([string]$section, [int]$index, [string]$name, $value) {
    if ($null -eq $value) { return }
    $text = [Convert]::ToString($value, [Globalization.CultureInfo]::InvariantCulture)
    if ($null -eq $text) { return }
    $text = $text.Trim()
    if ($text.Length -eq 0) { return }
    $bytes = [Text.Encoding]::UTF8.GetBytes($text)
    $hex = -join ($bytes | ForEach-Object { $_.ToString('x2') })
    [Console]::Out.WriteLine("$section`t$index`t$name`t$hex")
}

function Emit-Status([string]$section, $errorRecord) {
    $status = 'collection_error'
    if ($null -ne $errorRecord) {
        $hresult = $errorRecord.Exception.HResult
        $native = $errorRecord.Exception.NativeErrorCode
        if (($hresult -eq -2147024891) -or ($native -eq 5)) { $status = 'permission_denied' }
        elseif ($errorRecord.Exception -is [Management.Automation.CommandNotFoundException]) { $status = 'unsupported' }
        elseif ("$($errorRecord.Exception.Message)" -match 'not supported|Invalid class|Not found') { $status = 'unsupported' }
    }
    Emit-Value $section 0 'source_status' $status
}

function Is-CameraName([string]$label) {
    if ([string]::IsNullOrWhiteSpace($label)) { return $false }
    if ($label -match 'Scanner|WIA|Print|Fax|Still Capture') { return $false }
    return ($label -match 'Camera|Webcam|UVC|Imaging Device|Integrated Camera|IR Camera|RGB Camera')
}

function Is-MicrophoneName([string]$label) {
    if ([string]::IsNullOrWhiteSpace($label)) { return $false }
    if ($label -match 'Speaker|Headphone|HDMI|Display Audio|Stereo Mix') { return $false }
    return ($label -match 'Microphone|Mic Array|\bMic\b|Headset')
}

$cameraSeen = @{}
$cameraIndex = 0
function Add-Camera($item, [string]$via) {
    $id = [string]$item.PNPDeviceID
    if ([string]::IsNullOrWhiteSpace($id)) { $id = [string]$item.DeviceID }
    if ([string]::IsNullOrWhiteSpace($id)) { $id = [string]$item.Name }
    if ([string]::IsNullOrWhiteSpace($id) -or $cameraSeen.ContainsKey($id)) { return }
    $label = if (-not [string]::IsNullOrWhiteSpace([string]$item.Caption)) { [string]$item.Caption } else { [string]$item.Name }
    if (-not (Is-CameraName $label) -and $via -eq 'media_class') { return }
    if ($label -match 'Scanner|WIA|Print') { return }
    $script:cameraSeen[$id] = $true
    Emit-Value 'camera' $script:cameraIndex 'present' $true
    Emit-Value 'camera' $script:cameraIndex 'name' $label
    Emit-Value 'camera' $script:cameraIndex 'manufacturer' $item.Manufacturer
    Emit-Value 'camera' $script:cameraIndex 'enumerated_by' $via
    $script:cameraIndex++
}

$micSeen = @{}
$micIndex = 0
function Add-Microphone($item, [string]$via) {
    $id = [string]$item.PNPDeviceID
    if ([string]::IsNullOrWhiteSpace($id)) { $id = [string]$item.DeviceID }
    if ([string]::IsNullOrWhiteSpace($id)) { $id = [string]$item.Name }
    if ([string]::IsNullOrWhiteSpace($id) -or $micSeen.ContainsKey($id)) { return }
    $label = if (-not [string]::IsNullOrWhiteSpace([string]$item.Caption)) { [string]$item.Caption } else { [string]$item.Name }
    if (-not (Is-MicrophoneName $label)) { return }
    $script:micSeen[$id] = $true
    Emit-Value 'microphone' $script:micIndex 'present' $true
    Emit-Value 'microphone' $script:micIndex 'name' $label
    Emit-Value 'microphone' $script:micIndex 'manufacturer' $item.Manufacturer
    Emit-Value 'microphone' $script:micIndex 'enumerated_by' $via
    $script:micIndex++
}

try {
    $guid = '{ca3e7ab9-b4c3-4ae6-8251-579689032b24}'
    $items = @(Get-CimInstance -ClassName Win32_PnPEntity -Filter "ClassGuid='$guid'" -Property Name,Caption,Manufacturer,PNPDeviceID -ErrorAction Stop)
    Emit-Value 'camera_class' 0 'source_status' 'reported'
    foreach ($item in $items) { Add-Camera $item 'PnP Camera class' }
} catch { Emit-Status 'camera_class' $_ }

try {
    $guid = '{6bdd1fc6-810f-11d0-bec7-08002be2092f}'
    $items = @(Get-CimInstance -ClassName Win32_PnPEntity -Filter "ClassGuid='$guid'" -Property Name,Caption,Manufacturer,PNPDeviceID -ErrorAction Stop)
    Emit-Value 'image_class' 0 'source_status' 'reported'
    foreach ($item in $items) { Add-Camera $item 'PnP Image class' }
} catch { Emit-Status 'image_class' $_ }

try {
    $items = @(Get-CimInstance -ClassName Win32_PnPEntity -Filter "Service='usbvideo'" -Property Name,Caption,Manufacturer,PNPDeviceID,Service -ErrorAction Stop)
    Emit-Value 'usbvideo' 0 'source_status' 'reported'
    foreach ($item in $items) { Add-Camera $item 'USB video service' }
} catch { Emit-Status 'usbvideo' $_ }

try {
    $guid = '{4d36e96c-e325-11ce-bfc1-08002be10318}'
    $items = @(Get-CimInstance -ClassName Win32_PnPEntity -Filter "ClassGuid='$guid'" -Property Name,Caption,Manufacturer,PNPDeviceID -ErrorAction Stop)
    Emit-Value 'media_class' 0 'source_status' 'reported'
    foreach ($item in $items) { Add-Camera $item 'media_class' }
} catch { Emit-Status 'media_class' $_ }

if ($cameraIndex -eq 0) {
    Emit-Value 'camera' 0 'none_enumerated' $true
}

try {
    $guid = '{c166523c-fe0c-4a94-a586-f1a80cfbbf32}'
    $items = @(Get-CimInstance -ClassName Win32_PnPEntity -Filter "ClassGuid='$guid'" -Property Name,Caption,Manufacturer,PNPDeviceID -ErrorAction Stop)
    Emit-Value 'audio_endpoint' 0 'source_status' 'reported'
    foreach ($item in $items) { Add-Microphone $item 'Audio endpoint class' }
} catch { Emit-Status 'audio_endpoint' $_ }

try {
    $items = @(Get-CimInstance -ClassName Win32_SoundDevice -Property Name,Manufacturer,Status,ProductName -ErrorAction Stop)
    Emit-Value 'sound_device' 0 'source_status' 'reported'
    foreach ($item in $items) { Add-Microphone $item 'Windows sound device' }
} catch { Emit-Status 'sound_device' $_ }

if ($micIndex -eq 0) {
    Emit-Value 'microphone' 0 'none_enumerated' $true
}

Emit-Value 'capture' 0 'frames_captured' $false
Emit-Value 'capture' 0 'audio_recorded' $false
"#;

#[derive(Debug, Clone, Copy, PartialEq, Eq, Structural)]
#[non_exhaustive]
pub enum CaptureSource {
    CameraClass,
    ImageClass,
    UsbVideo,
    MediaClass,
    AudioEndpoint,
    SoundDevice,
}

impl CaptureSource {
    #[must_use]
    pub fn label(self) -> (s: &'static str)
        ensures
            s@ == self.label_text(),
    {
        match self {
            CaptureSource::CameraClass => "PnP Camera class",
            CaptureSource::ImageClass => "PnP Image class",
            CaptureSource::UsbVideo => "USB video service",
            CaptureSource::MediaClass => "PnP Media class",
            CaptureSource::AudioEndpoint => "Audio endpoint class",
            CaptureSource::SoundDevice => "Windows sound device",
        }
    }

    pub open spec fn label_text(self) -> Seq<char> {
        match self {
            CaptureSource::CameraClass => "PnP Camera class"@,
            CaptureSource::ImageClass => "PnP Image class"@,
            CaptureSource::UsbVideo => "USB video service"@,
            CaptureSource::MediaClass => "PnP Media class"@,
            CaptureSource::AudioEndpoint => "Audio endpoint class"@,
            CaptureSource::SoundDevice => "Windows sound device"@,
        }
    }

    pub open spec fn section_text(self) -> Seq<char> {
        match self {
            CaptureSource::CameraClass => "camera_class"@,
            CaptureSource::ImageClass => "image_class"@,
            CaptureSource::UsbVideo => "usbvideo"@,
            CaptureSource::MediaClass => "media_class"@,
            CaptureSource::AudioEndpoint => "audio_endpoint"@,
            CaptureSource::SoundDevice => "sound_device"@,
        }
    }

    fn section(self) -> (s: &'static str)
        ensures
            s@ == self.section_text(),
    {
        match self {
            CaptureSource::CameraClass => "camera_class",
            CaptureSource::ImageClass => "image_class",
            CaptureSource::UsbVideo => "usbvideo",
            CaptureSource::MediaClass => "media_class",
            CaptureSource::AudioEndpoint => "audio_endpoint",
            CaptureSource::SoundDevice => "sound_device",
        }
    }
}

/// Every source, in report order.
pub open spec fn source_at(i: int) -> CaptureSource {
    if i == 0 {
        CaptureSource::CameraClass
    } else if i == 1 {
        CaptureSource::ImageClass
    } else if i == 2 {
        CaptureSource::UsbVideo
    } else if i == 3 {
        CaptureSource::MediaClass
    } else if i == 4 {
        CaptureSource::AudioEndpoint
    } else {
        CaptureSource::SoundDevice
    }
}

fn all_sources() -> (v: Vec<CaptureSource>)
    ensures
        v@.len() == 6,
        forall|i: int| 0 <= i < 6 ==> v@[i] == source_at(i),
{
    vec![
        CaptureSource::CameraClass,
        CaptureSource::ImageClass,
        CaptureSource::UsbVideo,
        CaptureSource::MediaClass,
        CaptureSource::AudioEndpoint,
        CaptureSource::SoundDevice,
    ]
}

#[derive(Debug, Clone, Copy, PartialEq, Eq, Structural)]
#[non_exhaustive]
pub enum SourceOutcome {
    Reported,
    NotQueried,
    PermissionDenied,
    Unsupported,
    CollectionError,
}

pub open spec fn outcome_of(w: WireOutcome) -> SourceOutcome {
    match w {
        WireOutcome::Reported => SourceOutcome::Reported,
        WireOutcome::NotQueried => SourceOutcome::NotQueried,
        WireOutcome::PermissionDenied => SourceOutcome::PermissionDenied,
        WireOutcome::Unsupported => SourceOutcome::Unsupported,
        WireOutcome::CollectionError => SourceOutcome::CollectionError,
    }
}

impl SourceOutcome {
    #[must_use]
    pub fn customer_label(self) -> (s: &'static str)
        ensures
            s@ == self.customer_text(),
    {
        match self {
            SourceOutcome::Reported => "Answered",
            SourceOutcome::NotQueried => "Not queried on this PC",
            SourceOutcome::PermissionDenied => "Refused without administrator rights",
            SourceOutcome::Unsupported => "Not available on this PC",
            SourceOutcome::CollectionError => "Windows returned an error",
        }
    }

    pub open spec fn customer_text(self) -> Seq<char> {
        match self {
            SourceOutcome::Reported => "Answered"@,
            SourceOutcome::NotQueried => "Not queried on this PC"@,
            SourceOutcome::PermissionDenied => "Refused without administrator rights"@,
            SourceOutcome::Unsupported => "Not available on this PC"@,
            SourceOutcome::CollectionError => "Windows returned an error"@,
        }
    }

    fn from_wire(w: WireOutcome) -> (o: Self)
        ensures
            o == outcome_of(w),
    {
        match w {
            WireOutcome::Reported => SourceOutcome::Reported,
            WireOutcome::NotQueried => SourceOutcome::NotQueried,
            WireOutcome::PermissionDenied => SourceOutcome::PermissionDenied,
            WireOutcome::Unsupported => SourceOutcome::Unsupported,
            WireOutcome::CollectionError => SourceOutcome::CollectionError,
        }
    }
}

#[derive(Debug, Clone, Copy, PartialEq, Eq, Structural)]
pub struct SourceStatus {
    pub source: CaptureSource,
    pub outcome: SourceOutcome,
}

#[derive(Debug, Clone, PartialEq, Eq)]
pub struct CaptureDevice {
    pub kind: &'static str,
    pub present: bool,
    pub name: Option<String>,
    pub manufacturer: Option<String>,
    pub enumerated_by: Option<String>,
}

#[derive(Debug, Clone, PartialEq, Eq)]
pub struct CaptureProbe {
    pub cameras: Vec<CaptureDevice>,
    pub microphones: Vec<CaptureDevice>,
    pub sources: Vec<SourceStatus>,
    pub frames_captured: bool,
    pub audio_recorded: bool,
    pub probe_error: Option<&'static str>,
}

/// The names of the present devices that have one, in order.
pub open spec fn device_names(devices: Seq<CaptureDevice>) -> Seq<Seq<char>>
    decreases devices.len(),
{
    if devices.len() == 0 {
        Seq::<Seq<char>>::empty()
    } else {
        let d = devices.last();
        let before = device_names(devices.drop_last());
        match d.name {
            Some(n) => if d.present {
                before.push(n@)
            } else {
                before
            },
            None => before,
        }
    }
}

fn names_of(devices: &Vec<CaptureDevice>) -> (out: Vec<String>)
    ensures
        out@.len() == device_names(devices@).len(),
        forall|i: int| 0 <= i < out@.len() ==> (#[trigger] out@[i])@ == device_names(devices@)[i],
{
    let mut out: Vec<String> = Vec::new();
    let mut i: usize = 0;
    while i < devices.len()
        invariant
            i <= devices@.len(),
            out@.len() == device_names(devices@.take(i as int)).len(),
            forall|k: int|
                0 <= k < out@.len() ==> (#[trigger] out@[k])@ == device_names(
                    devices@.take(i as int),
                )[k],
        decreases devices.len() - i,
    {
        assert(devices@.take(i + 1).drop_last() =~= devices@.take(i as int));
        let d = &devices[i];
        if d.present {
            match &d.name {
                Some(n) => {
                    out.push(n.clone());
                },
                None => {},
            }
        }
        i += 1;
    }
    assert(devices@.take(devices@.len() as int) =~= devices@);
    out
}

/// Whether a source of the given pair answered.
pub open spec fn answered(sources: Seq<SourceStatus>, a: CaptureSource, b: CaptureSource) -> bool {
    exists|i: int|
        0 <= i < sources.len() && ((#[trigger] sources[i]).source == a || sources[i].source == b)
            && sources[i].outcome == SourceOutcome::Reported
}

fn any_answered(sources: &Vec<SourceStatus>, a: CaptureSource, b: CaptureSource) -> (r: bool)
    ensures
        r == answered(sources@, a, b),
{
    let mut i: usize = 0;
    while i < sources.len()
        invariant
            i <= sources@.len(),
            forall|k: int|
                0 <= k < i ==> !(((#[trigger] sources@[k]).source == a || sources@[k].source == b)
                    && sources@[k].outcome == SourceOutcome::Reported),
        decreases sources.len() - i,
    {
        let s = sources[i];
        if (s.source == a || s.source == b) && s.outcome == SourceOutcome::Reported {
            return true;
        }
        i += 1;
    }
    false
}

impl CaptureProbe {
    /// A probe that could not run, saying why; no source was queried.
    #[must_use]
    pub fn unavailable(reason: &'static str) -> (p: Self)
        ensures
            p.cameras@.len() == 0,
            p.microphones@.len() == 0,
            p.sources@.len() == 6,
            forall|i: int|
                0 <= i < 6 ==> p.sources@[i] == (SourceStatus {
                    source: source_at(i),
                    outcome: SourceOutcome::NotQueried,
                }),
            !p.frames_captured,
            !p.audio_recorded,
            p.probe_error == Some(reason),
    {
        let all = all_sources();
        let mut sources: Vec<SourceStatus> = Vec::new();
        let mut i: usize = 0;
        while i < all.len()
            invariant
                i <= 6,
                all@.len() == 6,
                forall|k: int| 0 <= k < 6 ==> all@[k] == source_at(k),
                sources@.len() == i,
                forall|k: int|
                    0 <= k < i ==> sources@[k] == (SourceStatus {
                        source: source_at(k),
                        outcome: SourceOutcome::NotQueried,
                    }),
            decreases all.len() - i,
        {
            sources.push(SourceStatus { source: all[i], outcome: SourceOutcome::NotQueried });
            i += 1;
        }
        CaptureProbe {
            cameras: Vec::new(),
            microphones: Vec::new(),
            sources,
            frames_captured: false,
            audio_recorded: false,
            probe_error: Some(reason),
        }
    }

    #[must_use]
    pub fn camera_names(&self) -> (names: Vec<String>)
        ensures
            names@.len() == device_names(self.cameras@).len(),
            forall|i: int|
                0 <= i < names@.len() ==> (#[trigger] names@[i])@ == device_names(self.cameras@)[i],
    {
        names_of(&self.cameras)
    }

    #[must_use]
    pub fn microphone_names(&self) -> (names: Vec<String>)
        ensures
            names@.len() == device_names(self.microphones@).len(),
            forall|i: int|
                0 <= i < names@.len() ==> (#[trigger] names@[i])@ == device_names(
                    self.microphones@,
                )[i],
    {
        names_of(&self.microphones)
    }

    /// Cameras are genuinely absent: the probe ran, a camera class answered,
    /// and nothing was listed.
    #[must_use]
    pub fn reports_no_cameras(&self) -> (r: bool)
        ensures
            r == (self.cameras@.len() == 0 && self.probe_error is None && answered(
                self.sources@,
                CaptureSource::CameraClass,
                CaptureSource::UsbVideo,
            )),
    {
        self.cameras.len() == 0 && self.probe_error.is_none() && any_answered(
            &self.sources,
            CaptureSource::CameraClass,
            CaptureSource::UsbVideo,
        )
    }

    #[must_use]
    pub fn reports_no_microphones(&self) -> (r: bool)
        ensures
            r == (self.microphones@.len() == 0 && self.probe_error is None && answered(
                self.sources@,
                CaptureSource::AudioEndpoint,
                CaptureSource::SoundDevice,
            )),
    {
        self.microphones.len() == 0 && self.probe_error.is_none() && any_answered(
            &self.sources,
            CaptureSource::AudioEndpoint,
            CaptureSource::SoundDevice,
        )
    }
}

pub open spec fn capture_sections() -> Seq<Seq<char>> {
    seq![
        "camera"@,
        "microphone"@,
        "camera_class"@,
        "image_class"@,
        "usbvideo"@,
        "media_class"@,
        "audio_endpoint"@,
        "sound_device"@,
        "capture"@,
    ]
}

pub open spec fn capture_names() -> Seq<Seq<char>> {
    seq![
        "source_status"@,
        "present"@,
        "name"@,
        "manufacturer"@,
        "enumerated_by"@,
        "none_enumerated"@,
        "frames_captured"@,
        "audio_recorded"@,
    ]
}

/// `d` is the device listed at `index` of a section.
pub open spec fn device_at(
    d: CaptureDevice,
    m: Map<(Seq<char>, int, Seq<char>), Seq<char>>,
    section: Seq<char>,
    kind: Seq<char>,
    index: int,
) -> bool {
    &&& d.kind@ == kind
    &&& d.present
    &&& opt_view(d.name) == text_value(lookup(m, section, index, "name"@), false)
    &&& opt_view(d.manufacturer) == text_value(lookup(m, section, index, "manufacturer"@), false)
    &&& opt_view(d.enumerated_by) == text_value(lookup(m, section, index, "enumerated_by"@), false)
}

/// The devices of a section: one per index up to the limit whose `present`
/// flag is set, in index order.
pub open spec fn devices_spec(
    ds: Seq<CaptureDevice>,
    m: Map<(Seq<char>, int, Seq<char>), Seq<char>>,
    section: Seq<char>,
    kind: Seq<char>,
) -> bool {
    let idx = present_indices(m, section, (MAX_DEVICE_INDEX + 1) as nat);
    &&& ds.len() == idx.len()
    &&& forall|i: int| 0 <= i < ds.len() ==> device_at(#[trigger] ds[i], m, section, kind, idx[i])
}

fn devices(values: &ProtocolValues, section: &str, kind: &'static str) -> (out: Vec<CaptureDevice>)
    ensures
        devices_spec(out@, values.map(), section@, kind@),
{
    let mut out: Vec<CaptureDevice> = Vec::new();
    let mut index: usize = 0;
    while index <= MAX_DEVICE_INDEX
        invariant
            index <= MAX_DEVICE_INDEX + 1,
            out@.len() == present_indices(values.map(), section@, index as nat).len(),
            forall|i: int|
                0 <= i < out@.len() ==> device_at(
                    #[trigger] out@[i],
                    values.map(),
                    section@,
                    kind@,
                    present_indices(values.map(), section@, index as nat)[i],
                ),
        decreases MAX_DEVICE_INDEX + 1 - index,
    {
        if values.flag(section, index, "present") {
            out.push(
                CaptureDevice {
                    kind,
                    present: true,
                    name: values.text(section, index, "name", false),
                    manufacturer: values.text(section, index, "manufacturer", false),
                    enumerated_by: values.text(section, index, "enumerated_by", false),
                },
            );
        }
        index += 1;
    }
    out
}

/// `p` is what the capture protocol output `text` says.
pub open spec fn capture_probe_of(p: CaptureProbe, text: Seq<char>) -> bool {
    let m = parse_spec(
        text,
        MAX_PROTOCOL_LINES as nat,
        MAX_DEVICE_INDEX as nat,
        MAX_VALUE_BYTES as nat,
        capture_sections(),
        capture_names(),
        false,
    );
    &&& devices_spec(p.cameras@, m, "camera"@, "camera"@)
    &&& devices_spec(p.microphones@, m, "microphone"@, "microphone"@)
    &&& p.sources@.len() == 6
    &&& forall|i: int|
        0 <= i < 6 ==> p.sources@[i] == (SourceStatus {
            source: source_at(i),
            outcome: outcome_of(wire_outcome(lookup(m, source_at(i).section_text(), 0, "source_status"@))),
        })
    &&& p.frames_captured == flag_spec(m, "capture"@, 0, "frames_captured"@)
    &&& p.audio_recorded == flag_spec(m, "capture"@, 0, "audio_recorded"@)
    &&& p.probe_error is None
}

/// Read the capture protocol.
#[must_use]
pub fn parse_probe(text: &str) -> (p: CaptureProbe)
    ensures
        capture_probe_of(p, text@),
{
    let sections: Vec<&str> = vec![
        "camera",
        "microphone",
        "camera_class",
        "image_class",
        "usbvideo",
        "media_class",
        "audio_endpoint",
        "sound_device",
        "capture",
    ];
    let names: Vec<&str> = vec![
        "source_status",
        "present",
        "name",
        "manufacturer",
        "enumerated_by",
        "none_enumerated",
        "frames_captured",
        "audio_recorded",
    ];
    proof {
        reveal_strlit("camera");
        assert(strs(sections@) =~= capture_sections());
        assert(strs(names@) =~= capture_names());
    }
    let values = parse_protocol(
        text,
        MAX_PROTOCOL_LINES,
        MAX_DEVICE_INDEX,
        MAX_VALUE_BYTES,
        sections.as_slice(),
        names.as_slice(),
        false,
    );
    let all = all_sources();
    let mut sources: Vec<SourceStatus> = Vec::new();
    let mut i: usize = 0;
    while i < all.len()
        invariant
            i <= 6,
            all@.len() == 6,
            forall|k: int| 0 <= k < 6 ==> all@[k] == source_at(k),
            sources@.len() == i,
            forall|k: int|
                0 <= k < i ==> sources@[k] == (SourceStatus {
                    source: source_at(k),
                    outcome: outcome_of(
                        wire_outcome(lookup(values.map(), source_at(k).section_text(), 0, "source_status"@)),
                    ),
                }),
        decreases all.len() - i,
    {
        let source = all[i];
        let outcome = SourceOutcome::from_wire(values.outcome(source.section()));
        sources.push(SourceStatus { source, outcome });
        i += 1;
    }
    CaptureProbe {
        cameras: devices(&values, "camera", "camera"),
        microphones: devices(&values, "microphone", "microphone"),
        sources,
        frames_captured: values.flag("capture", 0, "frames_captured"),
        audio_recorded: values.flag("capture", 0, "audio_recorded"),
        probe_error: None,
    }
}

} // verus!
