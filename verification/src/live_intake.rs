//! Live technician intake for USB insertion and charger sensing.
//!
//! The Interactive Checks overlay polls this while a technician inserts a USB
//! stick or a charger. It is read-only: it never writes to a volume.
//!
//! Charging is not a scoring domain. A sensed USB volume is not a substitute
//! for the four physical-port attestation points. Reported USB speed is
//! telemetry only.

use vstd::prelude::*;
use crate::ScanTarget;
use crate::numtext::{
    dec, int_text, parse_i32, parse_i32_spec, parse_u8, parse_u8_spec, push_dec, push_i32,
};
use crate::text::{
    append_str, chars_of, contains, contains_str, drive_key, drive_key_string, eq_str, lines,
    lines_vec, lower_seq, lower_vec, owned, split_once, split_once_vec, string_of, trim, trim_vec,
    upper_seq, upper_vec, views,
};

verus! {

/// Reads whether Windows lists a battery, and its status code and charge.
pub const POWER_SCRIPT: &'static str = r#"
$ErrorActionPreference = 'Stop'
$ProgressPreference = 'SilentlyContinue'
try {
    $items = @(Get-CimInstance -ClassName Win32_Battery -ErrorAction Stop)
    Write-Output ("count=" + $items.Count)
    if ($items.Count -gt 0) {
        $b = $items[0]
        Write-Output ("present=1")
        Write-Output ("status=" + $b.BatteryStatus)
        Write-Output ("percent=" + $b.EstimatedChargeRemaining)
    }
} catch {
    Write-Output "count=0"
    Write-Output "status=error"
}
"#;

/// Lists removable volumes with the text Windows gives for the disk behind
/// each, from which the USB speed is read.
pub const VOLUME_SPEED_SCRIPT: &'static str = r#"
$ErrorActionPreference = 'SilentlyContinue'
$ProgressPreference = 'SilentlyContinue'
Get-CimInstance Win32_LogicalDisk | Where-Object { $_.DriveType -eq 2 } | ForEach-Object {
    $letter = $_.DeviceID.TrimEnd(':')
    $speed = 'Not reported by Windows'
    try {
        $part = Get-CimInstance -Query ("ASSOCIATORS OF {Win32_LogicalDisk.DeviceID='" + $_.DeviceID + "'} WHERE AssocClass=Win32_LogicalDiskToPartition")
        if ($part) {
            $disk = Get-CimInstance -Query ("ASSOCIATORS OF {Win32_DiskPartition.DeviceID='" + $part.DeviceID + "'} WHERE AssocClass=Win32_DiskDriveToDiskPartition")
            if ($disk) {
                $blob = [string]$disk.Caption + ' ' + [string]$disk.PNPDeviceID + ' ' + [string]$disk.InterfaceType + ' ' + [string]$disk.Description
                $speed = $blob
            }
        }
    } catch {
        $speed = 'Not reported by Windows'
    }
    Write-Output ("letter=" + $letter)
    Write-Output ("descriptor=" + $speed)
}
"#;

/// Printed for a check the technician did not open.
pub const NOT_ATTEMPTED: &'static str =
    "Not attempted in this scan. A technician records this at physical verification.";

pub const NOT_REPORTED: &'static str = "Not reported by Windows";

/// Customer-safe notes printed on Report D. Empty means the check was not opened.
#[derive(Debug, Clone, PartialEq, Eq)]
pub struct LiveIntakeNotes {
    pub usb_listed: String,
    pub power_status: String,
    pub camera_session: String,
    /// One line per USB 1–USB 4 tick, in order.
    pub usb_ports: Vec<String>,
}

impl Default for LiveIntakeNotes {
    fn default() -> (notes: Self)
        ensures
            notes.usb_listed@.len() == 0,
            notes.power_status@.len() == 0,
            notes.camera_session@.len() == 0,
            notes.usb_ports@.len() == 0,
    {
        LiveIntakeNotes {
            usb_listed: String::new(),
            power_status: String::new(),
            camera_session: String::new(),
            usb_ports: Vec::new(),
        }
    }
}

/// A note as printed: trimmed, or the not-attempted phrase when blank.
pub open spec fn note_or_default(note: Seq<char>) -> Seq<char> {
    if trim(note).len() == 0 {
        NOT_ATTEMPTED@
    } else {
        trim(note)
    }
}

fn note_or_default_of(note: &String) -> (s: String)
    ensures
        s@ == note_or_default(note@),
{
    let t = trim_vec(&chars_of(note.as_str()));
    if t.len() == 0 {
        owned(NOT_ATTEMPTED)
    } else {
        string_of(&t)
    }
}

impl LiveIntakeNotes {
    #[must_use]
    pub fn usb_or_default(&self) -> (s: String)
        ensures
            s@ == note_or_default(self.usb_listed@),
    {
        note_or_default_of(&self.usb_listed)
    }

    #[must_use]
    pub fn power_or_default(&self) -> (s: String)
        ensures
            s@ == note_or_default(self.power_status@),
    {
        note_or_default_of(&self.power_status)
    }

    #[must_use]
    pub fn camera_or_default(&self) -> (s: String)
        ensures
            s@ == note_or_default(self.camera_session@),
    {
        note_or_default_of(&self.camera_session)
    }

    /// The note for USB port `index + 1`, or the not-attempted phrase.
    #[must_use]
    pub fn usb_port_or_default(&self, index: usize) -> (s: String)
        ensures
            s@ == (if index < self.usb_ports@.len() {
                note_or_default(self.usb_ports@[index as int]@)
            } else {
                NOT_ATTEMPTED@
            }),
    {
        if index < self.usb_ports.len() {
            note_or_default_of(&self.usb_ports[index])
        } else {
            owned(NOT_ATTEMPTED)
        }
    }

    /// The camera note records a snapshot or a clip.
    #[must_use]
    pub fn has_camera_capture(&self) -> (r: bool)
        ensures
            r == (contains(lower_seq(self.camera_session@), "snapshot"@) || contains(
                lower_seq(self.camera_session@),
                "clip"@,
            )),
    {
        let text = lower_vec(&chars_of(self.camera_session.as_str()));
        contains_str(&text, "snapshot") || contains_str(&text, "clip")
    }
}

#[derive(Debug, Clone, PartialEq, Eq)]
pub struct LiveRemovableVolume {
    pub letter: String,
    pub label: String,
    pub size_label: String,
    pub speed_label: String,
}

#[derive(Debug, Clone, PartialEq, Eq)]
pub struct LivePowerStatus {
    pub present: bool,
    pub on_mains: bool,
    pub charging: bool,
    pub status_code: Option<i32>,
    pub status_label: String,
    pub charge_percent: Option<u8>,
    pub available: bool,
    pub detail: String,
}

#[derive(Debug, Clone, PartialEq, Eq)]
pub struct LiveIntakeProbe {
    pub removable: Vec<LiveRemovableVolume>,
    pub power: LivePowerStatus,
}

/// What a Windows `BatteryStatus` code says: on mains, charging, and its name.
pub open spec fn status_meaning(code: i32) -> (bool, bool, Seq<char>) {
    if code == 1 {
        (false, false, "Discharging"@)
    } else if code == 2 {
        (true, false, "On mains power"@)
    } else if code == 3 {
        (true, false, "Fully charged"@)
    } else if code == 4 {
        (false, false, "Low"@)
    } else if code == 5 {
        (false, false, "Critical"@)
    } else if code == 6 {
        (true, true, "Charging"@)
    } else if code == 7 {
        (true, true, "Charging and high"@)
    } else if code == 8 {
        (true, true, "Charging and low"@)
    } else if code == 9 {
        (true, true, "Charging and critical"@)
    } else if code == 11 {
        (false, false, "Partially charged"@)
    } else {
        (false, false, "Windows did not name this power state"@)
    }
}

pub open spec fn percent_text(charge_percent: Option<u8>) -> Seq<char> {
    match charge_percent {
        Some(v) => dec(v as nat) + "%"@,
        None => "charge level not reported"@,
    }
}

/// The sentence printed for a status code: charging, AC without a claim of
/// charging, or not on a charger.
pub open spec fn status_detail(code: i32, charge_percent: Option<u8>) -> Seq<char> {
    let (on_mains, charging, _label) = status_meaning(code);
    let tail = ". BatteryStatus "@ + int_text(code as int) + "."@;
    if charging {
        "Windows reports the pack is charging ("@ + percent_text(charge_percent) + ")"@ + tail
    } else if on_mains {
        "Windows reports AC is available ("@ + percent_text(charge_percent)
            + "). The pack is not necessarily charging"@ + tail
    } else {
        "Windows reports the pack is not on a charger ("@ + percent_text(charge_percent) + ")"@
            + tail
    }
}

/// `s` is the reading of a present battery with this status code.
pub open spec fn interprets(s: LivePowerStatus, code: i32, charge_percent: Option<u8>) -> bool {
    let (on_mains, charging, label) = status_meaning(code);
    &&& s.present
    &&& s.on_mains == on_mains
    &&& s.charging == charging
    &&& s.status_code == Some(code)
    &&& s.status_label@ == label
    &&& s.charge_percent == charge_percent
    &&& s.available
    &&& s.detail@ == status_detail(code, charge_percent)
}

/// A charging code is always on mains.
pub proof fn charging_implies_mains(code: i32)
    ensures
        status_meaning(code).1 ==> status_meaning(code).0,
{
}

/// What Windows' `BatteryStatus` codes say about power: codes 2 (on
/// mains), 3 (fully charged) and 6 to 9 (charging) mean AC power is
/// present; only 6 to 9 mean the pack is charging; every other code (1, 4,
/// 5, 11 and unnamed ones) means the machine is on its battery. A reading
/// on AC that is not charging says AC is available without claiming a
/// charge.
pub proof fn mains_codes_are_exactly_the_ac_codes(code: i32, charge_percent: Option<u8>)
    ensures
        status_meaning(code).0 <==> (code == 2 || code == 3 || (6 <= code && code <= 9)),
        status_meaning(code).1 <==> (6 <= code && code <= 9),
        (code == 2 || code == 3) ==> status_detail(code, charge_percent) == "Windows reports AC is available ("@
            + percent_text(charge_percent) + "). The pack is not necessarily charging"@ + ". BatteryStatus "@
            + int_text(code as int) + "."@,
{
}

/// Map a Windows battery status code.
#[must_use]
pub fn interpret_battery_status(code: i32, charge_percent: Option<u8>) -> (s: LivePowerStatus)
    ensures
        interprets(s, code, charge_percent),
{
    let (on_mains, charging, label) = if code == 1 {
        (false, false, "Discharging")
    } else if code == 2 {
        (true, false, "On mains power")
    } else if code == 3 {
        (true, false, "Fully charged")
    } else if code == 4 {
        (false, false, "Low")
    } else if code == 5 {
        (false, false, "Critical")
    } else if code == 6 {
        (true, true, "Charging")
    } else if code == 7 {
        (true, true, "Charging and high")
    } else if code == 8 {
        (true, true, "Charging and low")
    } else if code == 9 {
        (true, true, "Charging and critical")
    } else if code == 11 {
        (false, false, "Partially charged")
    } else {
        (false, false, "Windows did not name this power state")
    };
    let mut pt: Vec<char> = Vec::new();
    match charge_percent {
        Some(v) => {
            push_dec(&mut pt, v as u64);
            append_str(&mut pt, "%");
        },
        None => {
            append_str(&mut pt, "charge level not reported");
        },
    }
    assert(pt@ =~= percent_text(charge_percent));
    let mut d: Vec<char> = Vec::new();
    if charging {
        append_str(&mut d, "Windows reports the pack is charging (");
        crate::text::append_all(&mut d, &pt);
        append_str(&mut d, ")");
    } else if on_mains {
        append_str(&mut d, "Windows reports AC is available (");
        crate::text::append_all(&mut d, &pt);
        append_str(&mut d, "). The pack is not necessarily charging");
    } else {
        append_str(&mut d, "Windows reports the pack is not on a charger (");
        crate::text::append_all(&mut d, &pt);
        append_str(&mut d, ")");
    }
    append_str(&mut d, ". BatteryStatus ");
    push_i32(&mut d, code);
    append_str(&mut d, ".");
    assert(d@ =~= status_detail(code, charge_percent));
    LivePowerStatus {
        present: true,
        on_mains,
        charging,
        status_code: Some(code),
        status_label: owned(label),
        charge_percent,
        available: true,
        detail: string_of(&d),
    }
}

/// The customer USB speed label for a Windows disk caption or PnP string,
/// matched case-insensitively, fastest first.
pub open spec fn usb_speed_label(descriptor: Seq<char>) -> Seq<char> {
    let u = upper_seq(descriptor);
    if contains(u, "NOT REPORTED BY WINDOWS"@) || trim(descriptor).len() == 0 {
        NOT_REPORTED@
    } else if contains(u, "SSPLUS"@) || contains(u, "SUPERSPEEDPLUS"@) || contains(
        u,
        "SUPER SPEED PLUS"@,
    ) || contains(u, "USB 3.2"@) || contains(u, "USB3.2"@) || contains(u, "20GB"@) || contains(
        u,
        "10GB"@,
    ) {
        "USB 3.2 SuperSpeed+"@
    } else if contains(u, "SUPERSPEED"@) || contains(u, "SUPER SPEED"@) || contains(u, "USB 3.1"@)
        || contains(u, "USB3.1"@) || contains(u, "USB 3.0"@) || contains(u, "USB3.0"@) || contains(
        u,
        "USB3"@,
    ) {
        "USB 3.0 SuperSpeed"@
    } else if contains(u, "USB 2.0"@) || contains(u, "USB2.0"@) || contains(u, "HIGH SPEED"@)
        || contains(u, "USB2"@) {
        "USB 2.0 High Speed"@
    } else if contains(u, "USB 1.1"@) || contains(u, "USB1.1"@) || contains(u, "FULL SPEED"@)
        || contains(u, "USB1"@) {
        "USB 1.1 Full Speed"@
    } else {
        NOT_REPORTED@
    }
}

/// Map a Windows disk caption / PnP string to a customer USB speed label.
#[must_use]
pub fn classify_usb_speed(descriptor: &str) -> (label: String)
    ensures
        label@ == usb_speed_label(descriptor@),
{
    let raw = chars_of(descriptor);
    let u = upper_vec(&raw);
    if contains_str(&u, "NOT REPORTED BY WINDOWS") || trim_vec(&raw).len() == 0 {
        return owned(NOT_REPORTED);
    }
    if contains_str(&u, "SSPLUS") || contains_str(&u, "SUPERSPEEDPLUS") || contains_str(
        &u,
        "SUPER SPEED PLUS",
    ) || contains_str(&u, "USB 3.2") || contains_str(&u, "USB3.2") || contains_str(&u, "20GB")
        || contains_str(&u, "10GB") {
        return owned("USB 3.2 SuperSpeed+");
    }
    if contains_str(&u, "SUPERSPEED") || contains_str(&u, "SUPER SPEED") || contains_str(
        &u,
        "USB 3.1",
    ) || contains_str(&u, "USB3.1") || contains_str(&u, "USB 3.0") || contains_str(&u, "USB3.0")
        || contains_str(&u, "USB3") {
        return owned("USB 3.0 SuperSpeed");
    }
    if contains_str(&u, "USB 2.0") || contains_str(&u, "USB2.0") || contains_str(&u, "HIGH SPEED")
        || contains_str(&u, "USB2") {
        return owned("USB 2.0 High Speed");
    }
    if contains_str(&u, "USB 1.1") || contains_str(&u, "USB1.1") || contains_str(&u, "FULL SPEED")
        || contains_str(&u, "USB1") {
        return owned("USB 1.1 Full Speed");
    }
    owned(NOT_REPORTED)
}

/// The removable or USB targets among those listed, in order.
pub open spec fn removable_only(targets: Seq<ScanTarget>) -> Seq<ScanTarget>
    decreases targets.len(),
{
    if targets.len() == 0 {
        Seq::<ScanTarget>::empty()
    } else if targets.last().kind@ == "Removable or USB"@ {
        removable_only(targets.drop_last()).push(targets.last())
    } else {
        removable_only(targets.drop_last())
    }
}

/// The removable volumes among the scan targets, each with no speed yet.
pub fn removable_from_targets(targets: Vec<ScanTarget>) -> (out: Vec<LiveRemovableVolume>)
    ensures
        out@.len() == removable_only(targets@).len(),
        forall|i: int|
            0 <= i < out@.len() ==> {
                let t = removable_only(targets@)[i];
                &&& (#[trigger] out@[i]).letter@ == t.letter@
                &&& out@[i].label@ == t.label@
                &&& out@[i].size_label@ == t.size_label@
                &&& out@[i].speed_label@ == NOT_REPORTED@
            },
{
    let mut out: Vec<LiveRemovableVolume> = Vec::new();
    let mut i: usize = 0;
    while i < targets.len()
        invariant
            i <= targets@.len(),
            out@.len() == removable_only(targets@.take(i as int)).len(),
            forall|k: int|
                0 <= k < out@.len() ==> {
                    let t = removable_only(targets@.take(i as int))[k];
                    &&& (#[trigger] out@[k]).letter@ == t.letter@
                    &&& out@[k].label@ == t.label@
                    &&& out@[k].size_label@ == t.size_label@
                    &&& out@[k].speed_label@ == NOT_REPORTED@
                },
        decreases targets.len() - i,
    {
        assert(targets@.take(i + 1).drop_last() =~= targets@.take(i as int));
        let t = &targets[i];
        if eq_str(&chars_of(t.kind.as_str()), "Removable or USB") {
            out.push(
                LiveRemovableVolume {
                    letter: t.letter.clone(),
                    label: t.label.clone(),
                    size_label: t.size_label.clone(),
                    speed_label: owned(NOT_REPORTED),
                },
            );
        }
        i += 1;
    }
    assert(targets@.take(targets@.len() as int) =~= targets@);
    out
}

/// Speeds by drive letter; a later entry for a letter replaces an earlier one.
#[derive(Debug, Clone)]
pub struct SpeedMap {
    entries: Vec<(String, String)>,
}

pub open spec fn entries_map(entries: Seq<(String, String)>) -> Map<Seq<char>, Seq<char>>
    decreases entries.len(),
{
    if entries.len() == 0 {
        Map::<Seq<char>, Seq<char>>::empty()
    } else {
        entries_map(entries.drop_last()).insert(entries.last().0@, entries.last().1@)
    }
}

proof fn lemma_entries_map_prefix(entries: Seq<(String, String)>, j: int, key: Seq<char>)
    requires
        0 <= j <= entries.len(),
        forall|m: int| j <= m < entries.len() ==> (#[trigger] entries[m]).0@ != key,
    ensures
        entries_map(entries).contains_key(key) == entries_map(entries.take(j)).contains_key(key),
        entries_map(entries).contains_key(key) ==> entries_map(entries)[key] == entries_map(
            entries.take(j),
        )[key],
    decreases entries.len() - j,
{
    if j < entries.len() {
        assert(entries.drop_last().take(j) =~= entries.take(j));
        lemma_entries_map_prefix(entries.drop_last(), j, key);
    } else {
        assert(entries.take(j) =~= entries);
    }
}

impl SpeedMap {
    pub closed spec fn map(&self) -> Map<Seq<char>, Seq<char>> {
        entries_map(self.entries@)
    }

    pub fn new() -> (m: Self)
        ensures
            m.map() == Map::<Seq<char>, Seq<char>>::empty(),
    {
        SpeedMap { entries: Vec::new() }
    }

    pub fn insert(&mut self, key: String, value: String)
        ensures
            final(self).map() == old(self).map().insert(key@, value@),
    {
        let ghost before = self.entries@;
        self.entries.push((key, value));
        assert(self.entries@.drop_last() =~= before);
    }

    pub fn get(&self, key: &str) -> (r: Option<&String>)
        ensures
            match r {
                Some(v) => self.map().contains_key(key@) && self.map()[key@] == v@,
                None => !self.map().contains_key(key@),
            },
    {
        let mut i: usize = self.entries.len();
        while i > 0
            invariant
                i <= self.entries@.len(),
                forall|m: int| i <= m < self.entries@.len() ==> (#[trigger] self.entries@[m]).0@ != key@,
            decreases i,
        {
            if self.entries[i - 1].0 == key.to_owned() {
                proof {
                    lemma_entries_map_prefix(self.entries@, i as int, key@);
                    assert(self.entries@.take(i as int).drop_last() =~= self.entries@.take(i - 1));
                }
                return Some(&self.entries[i - 1].1);
            }
            i -= 1;
        }
        proof {
            lemma_entries_map_prefix(self.entries@, 0, key@);
        }
        None
    }
}

/// The state of reading the volume speed protocol: the current letter and
/// the speeds so far.
pub open spec fn speed_step(
    state: (Seq<char>, Map<Seq<char>, Seq<char>>),
    line: Seq<char>,
) -> (Seq<char>, Map<Seq<char>, Seq<char>>) {
    match split_once(line, '=') {
        None => state,
        Some((k, v)) => {
            let key = trim(k);
            if key == "letter"@ {
                (drive_key(v), state.1)
            } else if (key == "descriptor"@ || key == "speed"@) && state.0.len() > 0 {
                let label = if key == "speed"@ {
                    if trim(v).len() == 0 {
                        NOT_REPORTED@
                    } else {
                        trim(v)
                    }
                } else {
                    usb_speed_label(v)
                };
                (state.0, state.1.insert(state.0, label))
            } else {
                state
            }
        },
    }
}

pub open spec fn speed_fold(ls: Seq<Seq<char>>) -> (Seq<char>, Map<Seq<char>, Seq<char>>)
    decreases ls.len(),
{
    if ls.len() == 0 {
        (Seq::<char>::empty(), Map::<Seq<char>, Seq<char>>::empty())
    } else {
        speed_step(speed_fold(ls.drop_last()), ls.last())
    }
}

/// Speeds by letter from the volume speed protocol: `letter=` lines set the
/// current letter, `descriptor=` lines are classified, `speed=` lines are
/// taken as written.
pub fn parse_volume_speeds(stdout: &str) -> (speeds: SpeedMap)
    ensures
        speeds.map() == speed_fold(lines(stdout@)).1,
{
    let ls = lines_vec(&chars_of(stdout));
    let mut speeds = SpeedMap::new();
    let mut current = String::new();
    let mut i: usize = 0;
    while i < ls.len()
        invariant
            i <= ls@.len(),
            views(ls@) == lines(stdout@),
            (current@, speeds.map()) == speed_fold(views(ls@).take(i as int)),
        decreases ls.len() - i,
    {
        let ghost t = views(ls@).take(i + 1);
        assert(t.drop_last() =~= views(ls@).take(i as int));
        assert(t.last() == ls@[i as int]@);
        match split_once_vec(&ls[i], '=') {
            Some((k, v)) => {
                let key = trim_vec(&k);
                let value: String = string_of(&v);
                if eq_str(&key, "letter") {
                    current = drive_key_string(value.as_str());
                } else if (eq_str(&key, "descriptor") || eq_str(&key, "speed"))
                    && !current.as_str().is_empty() {
                    let label = if eq_str(&key, "speed") {
                        let tv = trim_vec(&v);
                        if tv.len() == 0 {
                            owned(NOT_REPORTED)
                        } else {
                            string_of(&tv)
                        }
                    } else {
                        classify_usb_speed(value.as_str())
                    };
                    speeds.insert(current.clone(), label);
                }
            },
            None => {},
        }
        i += 1;
    }
    assert(views(ls@).take(ls@.len() as int) =~= views(ls@));
    speeds
}

/// The speed recorded for a volume's letter, or its own label.
pub open spec fn speed_for(v: LiveRemovableVolume, speeds: Map<Seq<char>, Seq<char>>) -> Seq<char> {
    let key = drive_key(v.letter@);
    if speeds.contains_key(key) {
        speeds[key]
    } else {
        v.speed_label@
    }
}

/// Sets each volume's speed label from the speeds read for its letter.
pub fn apply_volume_speeds(volumes: &mut Vec<LiveRemovableVolume>, speeds: &SpeedMap)
    ensures
        final(volumes)@.len() == old(volumes)@.len(),
        forall|i: int|
            0 <= i < final(volumes)@.len() ==> {
                &&& (#[trigger] final(volumes)@[i]).letter@ == old(volumes)@[i].letter@
                &&& final(volumes)@[i].label@ == old(volumes)@[i].label@
                &&& final(volumes)@[i].size_label@ == old(volumes)@[i].size_label@
                &&& final(volumes)@[i].speed_label@ == speed_for(old(volumes)@[i], speeds.map())
            },
{
    let ghost before = volumes@;
    let mut i: usize = 0;
    while i < volumes.len()
        invariant
            i <= volumes@.len(),
            volumes@.len() == before.len(),
            forall|k: int|
                0 <= k < volumes@.len() ==> {
                    &&& (#[trigger] volumes@[k]).letter@ == before[k].letter@
                    &&& volumes@[k].label@ == before[k].label@
                    &&& volumes@[k].size_label@ == before[k].size_label@
                    &&& volumes@[k].speed_label@ == (if k < i {
                        speed_for(before[k], speeds.map())
                    } else {
                        before[k].speed_label@
                    })
                },
        decreases volumes.len() - i,
    {
        let key = drive_key_string(volumes[i].letter.as_str());
        match speeds.get(key.as_str()) {
            Some(speed) => {
                let updated = LiveRemovableVolume {
                    letter: volumes[i].letter.clone(),
                    label: volumes[i].label.clone(),
                    size_label: volumes[i].size_label.clone(),
                    speed_label: speed.clone(),
                };
                volumes.set(i, updated);
            },
            None => {},
        }
        i += 1;
    }
}

/// The state of reading the power protocol: battery count, status code,
/// charge percent, and whether Windows reported an error.
pub open spec fn power_step(state: (i32, Option<i32>, Option<u8>, bool), line: Seq<char>) -> (
    i32,
    Option<i32>,
    Option<u8>,
    bool,
) {
    match split_once(line, '=') {
        None => state,
        Some((k, v)) => {
            let key = trim(k);
            let value = trim(v);
            if key == "count"@ {
                (
                    match parse_i32_spec(value) {
                        Some(n) => n,
                        None => 0,
                    },
                    state.1,
                    state.2,
                    state.3,
                )
            } else if key == "status"@ {
                if lower_seq(value) == "error"@ {
                    (state.0, state.1, state.2, true)
                } else {
                    (state.0, parse_i32_spec(value), state.2, state.3)
                }
            } else if key == "percent"@ {
                (state.0, state.1, parse_u8_spec(value), state.3)
            } else {
                state
            }
        },
    }
}

pub open spec fn power_fold(ls: Seq<Seq<char>>) -> (i32, Option<i32>, Option<u8>, bool)
    decreases ls.len(),
{
    if ls.len() == 0 {
        (0, None, None, false)
    } else {
        power_step(power_fold(ls.drop_last()), ls.last())
    }
}

/// What the power protocol output says.
pub open spec fn power_reading(s: LivePowerStatus, stdout: Seq<char>) -> bool {
    let (count, status, percent, saw_error) = power_fold(lines(stdout));
    if saw_error && status is None {
        &&& !s.present && !s.on_mains && !s.charging && s.status_code is None
        &&& s.status_label@ == "Not collected"@
        &&& s.charge_percent is None
        &&& !s.available
        &&& s.detail@ == "Windows did not return a battery status for this check."@
    } else if count <= 0 {
        &&& !s.present && !s.on_mains && !s.charging && s.status_code is None
        &&& s.status_label@ == "No battery reported"@
        &&& s.charge_percent is None
        &&& s.available
        &&& s.detail@
            == "Windows listed no battery pack. A desktop without a pack cannot show charging."@
    } else {
        match status {
            Some(code) => interprets(s, code, percent),
            None => {
                &&& s.present && !s.on_mains && !s.charging && s.status_code is None
                &&& s.status_label@ == "Present"@
                &&& s.charge_percent == percent
                &&& s.available
                &&& s.detail@ == "Windows listed a battery but did not name BatteryStatus."@
            },
        }
    }
}

/// Reads the power protocol: the last `count=`, `status=` and `percent=`
/// lines win; `status=error` marks a failed query.
pub fn parse_power_stdout(stdout: &str) -> (s: LivePowerStatus)
    ensures
        power_reading(s, stdout@),
{
    let ls = lines_vec(&chars_of(stdout));
    let mut count: i32 = 0;
    let mut status_code: Option<i32> = None;
    let mut percent: Option<u8> = None;
    let mut saw_error = false;
    let mut i: usize = 0;
    while i < ls.len()
        invariant
            i <= ls@.len(),
            views(ls@) == lines(stdout@),
            (count, status_code, percent, saw_error) == power_fold(views(ls@).take(i as int)),
        decreases ls.len() - i,
    {
        let ghost t = views(ls@).take(i + 1);
        assert(t.drop_last() =~= views(ls@).take(i as int));
        assert(t.last() == ls@[i as int]@);
        match split_once_vec(&ls[i], '=') {
            Some((k, v)) => {
                let key = trim_vec(&k);
                let value = trim_vec(&v);
                if eq_str(&key, "count") {
                    count = match parse_i32(&value) {
                        Some(n) => n,
                        None => 0,
                    };
                } else if eq_str(&key, "status") {
                    if eq_str(&lower_vec(&value), "error") {
                        saw_error = true;
                    } else {
                        status_code = parse_i32(&value);
                    }
                } else if eq_str(&key, "percent") {
                    percent = parse_u8(&value);
                }
            },
            None => {},
        }
        i += 1;
    }
    assert(views(ls@).take(ls@.len() as int) =~= views(ls@));
    if saw_error && status_code.is_none() {
        return LivePowerStatus {
            present: false,
            on_mains: false,
            charging: false,
            status_code: None,
            status_label: owned("Not collected"),
            charge_percent: None,
            available: false,
            detail: owned("Windows did not return a battery status for this check."),
        };
    }
    if count <= 0 {
        return LivePowerStatus {
            present: false,
            on_mains: false,
            charging: false,
            status_code: None,
            status_label: owned("No battery reported"),
            charge_percent: None,
            available: true,
            detail: owned(
                "Windows listed no battery pack. A desktop without a pack cannot show charging.",
            ),
        };
    }
    match status_code {
        Some(code) => interpret_battery_status(code, percent),
        None => LivePowerStatus {
            present: true,
            on_mains: false,
            charging: false,
            status_code: None,
            status_label: owned("Present"),
            charge_percent: percent,
            available: true,
            detail: owned("Windows listed a battery but did not name BatteryStatus."),
        },
    }
}

/// The power reading when the query itself could not run.
pub fn power_unavailable(on_windows: bool) -> (s: LivePowerStatus)
    ensures
        !s.present && !s.available && !s.charging && !s.on_mains,
        s.status_code is None && s.charge_percent is None,
        s.status_label@ == "Not available on this PC"@,
        s.detail@ == (if on_windows {
            "Windows did not return a battery status for this check."@
        } else {
            "Live charger sensing runs only on Windows."@
        }),
{
    LivePowerStatus {
        present: false,
        on_mains: false,
        charging: false,
        status_code: None,
        status_label: owned("Not available on this PC"),
        charge_percent: None,
        available: false,
        detail: if on_windows {
            owned("Windows did not return a battery status for this check.")
        } else {
            owned("Live charger sensing runs only on Windows.")
        },
    }
}

/// The limits for the live intake probes: twelve seconds, 8 KiB of stdout,
/// 4 KiB of stderr, polled every 10 ms.
pub fn probe_limits() -> (l: crate::collector_runtime::CollectorLimits)
    ensures
        l.timeout_spec() == 12000,
        l.max_stdout_spec() == 8192,
        l.max_stderr_spec() == 4096,
        l.poll_interval_spec() == 10,
        l.valid(),
{
    crate::collector_runtime::CollectorLimits::new(12000, 8192, 4096, 10)
}

} // verus!
