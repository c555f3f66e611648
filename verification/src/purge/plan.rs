//! Dual confirmation and Mode S target planning.

use vstd::prelude::*;
use super::media::{classify, classify_spec, method_for, method_spec, MediaClass, MethodClass};
use crate::text::{
    chars_of, contains, contains_str, drive_key, drive_key_string, eq_str, lower_seq, lower_vec,
    owned, seq_eq, trim, trim_vec,
};

verus! {

#[derive(Debug, Clone, PartialEq, Eq)]
pub struct PlannedTarget {
    pub letter: String,
    pub disk_index: u32,
    pub media_class: MediaClass,
    pub method: MethodClass,
    pub model: String,
    pub serial: String,
    pub bus: String,
    pub size_bytes: u64,
    pub allowed: bool,
    pub refuse_reason: Option<String>,
}

#[derive(Debug, Clone)]
pub struct VolumeHint {
    pub letter: String,
    pub drive_kind: String,
    pub is_system: bool,
    pub size_bytes: u64,
}

#[derive(Debug, Clone)]
pub struct DiskHint {
    pub index: u32,
    pub model: String,
    pub serial: String,
    pub size_bytes: u64,
    pub interface_type: String,
    pub media_type: String,
}

pub open spec fn opt_view(o: Option<String>) -> Option<Seq<char>> {
    match o {
        Some(s) => Some(s@),
        None => None,
    }
}

/// The hostname the operator typed names this PC: equal after trimming and
/// ignoring ASCII case, and not empty.
pub open spec fn hostname_matches_spec(expected: Seq<char>, typed: Seq<char>) -> bool {
    let left = lower_seq(trim(expected));
    left.len() > 0 && left == lower_seq(trim(typed))
}

pub fn hostname_matches(expected: &str, typed: &str) -> (r: bool)
    ensures
        r == hostname_matches_spec(expected@, typed@),
{
    let left = lower_vec(&trim_vec(&chars_of(expected)));
    let right = lower_vec(&trim_vec(&chars_of(typed)));
    left.len() > 0 && seq_eq(&left, &right)
}

/// The operator typed `ERASE`, in capitals, with nothing else but spaces
/// around it.
pub fn erase_confirmed(typed: &str) -> (r: bool)
    ensures
        r == (trim(typed@) == "ERASE"@),
{
    eq_str(&trim_vec(&chars_of(typed)), "ERASE")
}

/// The first volume with this letter.
pub open spec fn find_volume(volumes: Seq<VolumeHint>, letter: Seq<char>) -> Option<VolumeHint>
    decreases volumes.len(),
{
    if volumes.len() == 0 {
        None
    } else if volumes[0].letter@ == letter {
        Some(volumes[0])
    } else {
        find_volume(volumes.drop_first(), letter)
    }
}

pub open spec fn abs_diff(a: u64, b: u64) -> int {
    if a >= b {
        a - b
    } else {
        b - a
    }
}

/// Whether a disk can back a volume: a removable volume sits on a USB or
/// removable disk; any other volume on a non-USB disk of about its size
/// (within 64 MiB), or any non-USB disk when its size is unknown.
pub open spec fn disk_fits(disk: DiskHint, size_hint: u64, removable: bool) -> bool {
    let usb = contains(lower_seq(disk.interface_type@), "usb"@);
    if removable {
        usb || contains(lower_seq(disk.media_type@), "removable"@)
    } else {
        !usb && (size_hint == 0 || abs_diff(disk.size_bytes, size_hint) < 64 * 1024 * 1024)
    }
}

pub open spec fn first_fitting(disks: Seq<DiskHint>, size_hint: u64, removable: bool) -> Option<
    DiskHint,
>
    decreases disks.len(),
{
    if disks.len() == 0 {
        None
    } else if disk_fits(disks[0], size_hint, removable) {
        Some(disks[0])
    } else {
        first_fitting(disks.drop_first(), size_hint, removable)
    }
}

/// The disk a volume is taken to sit on: the only disk when there is one,
/// else the first that fits.
pub open spec fn match_disk_spec(disks: Seq<DiskHint>, size_hint: u64, drive_kind: Seq<char>) -> Option<
    DiskHint,
> {
    if disks.len() == 0 {
        None
    } else if disks.len() == 1 {
        Some(disks[0])
    } else {
        first_fitting(disks, size_hint, drive_kind == "removable"@)
    }
}

/// Why a target is refused; none when it is allowed.
pub open spec fn refuse_reason_spec(class: MediaClass, allowed: bool) -> Option<Seq<char>> {
    if class == MediaClass::SystemDisk {
        Some(
            "The Windows system disk cannot be sanitised while this application is running on it (Mode S)."@,
        )
    } else if class.is_usb() {
        Some("Attached USB or removable media cannot be sanitised by this application."@)
    } else if class == MediaClass::Optical {
        Some("Optical drives cannot be sanitised by this application."@)
    } else if class == MediaClass::Network {
        Some("Network locations cannot be sanitised by this application."@)
    } else if allowed {
        None
    } else {
        Some("Unknown or unsupported media. Mode S fails closed."@)
    }
}

/// Whether Mode S may work on a class with its method: an allowed class,
/// a method that is not a refusal, and never USB or removable media.
pub open spec fn target_allowed(class: MediaClass) -> bool {
    class.allowed() && method_spec(class) != MethodClass::Refused && !class.is_usb()
}

/// `t` is the plan for the drive the operator selected as `raw`, given the
/// volumes and disks Windows reports.
pub open spec fn planned_for(
    t: PlannedTarget,
    raw: Seq<char>,
    volumes: Seq<VolumeHint>,
    disks: Seq<DiskHint>,
) -> bool {
    let letter = drive_key(raw);
    let volume = find_volume(volumes, letter);
    let is_system = match volume {
        Some(v) => v.is_system,
        None => false,
    };
    let kind = match volume {
        Some(v) => v.drive_kind@,
        None => "unknown"@,
    };
    let size_hint = match volume {
        Some(v) => v.size_bytes,
        None => 0,
    };
    let disk = match_disk_spec(disks, size_hint, kind);
    let iface = match disk {
        Some(d) => d.interface_type@,
        None => Seq::<char>::empty(),
    };
    let media = match disk {
        Some(d) => d.media_type@,
        None => Seq::<char>::empty(),
    };
    let model = match disk {
        Some(d) => d.model@,
        None => "unknown"@,
    };
    let class = classify_spec(is_system, kind, iface, media, model);
    &&& t.letter@ == letter
    &&& t.disk_index == (match disk {
        Some(d) => d.index,
        None => u32::MAX,
    })
    &&& t.media_class == class
    &&& t.method == method_spec(class)
    &&& t.model@ == model
    &&& t.serial@ == (match disk {
        Some(d) => d.serial@,
        None => "unknown"@,
    })
    &&& t.bus@ == (if iface.len() == 0 {
        kind
    } else {
        iface
    })
    &&& t.size_bytes == (match disk {
        Some(d) => d.size_bytes,
        None => size_hint,
    })
    &&& t.allowed == target_allowed(class)
    &&& opt_view(t.refuse_reason) == refuse_reason_spec(class, target_allowed(class))
}

/// A planned target is allowed only with a real method, never on the system
/// disk and never on USB or removable media; a refused one always says why.
pub proof fn plan_never_allows_system_or_usb(
    t: PlannedTarget,
    raw: Seq<char>,
    volumes: Seq<VolumeHint>,
    disks: Seq<DiskHint>,
)
    requires
        planned_for(t, raw, volumes, disks),
    ensures
        t.allowed ==> t.method != MethodClass::Refused && t.media_class != MediaClass::SystemDisk
            && !t.media_class.is_usb() && t.refuse_reason is None,
        !t.allowed ==> t.refuse_reason is Some,
{
}

proof fn lemma_find_volume_skip(volumes: Seq<VolumeHint>, letter: Seq<char>, i: int)
    requires
        0 <= i < volumes.len(),
    ensures
        find_volume(volumes.skip(i), letter) == (if volumes[i].letter@ == letter {
            Some(volumes[i])
        } else {
            find_volume(volumes.skip(i + 1), letter)
        }),
{
    assert(volumes.skip(i).drop_first() =~= volumes.skip(i + 1));
    assert(volumes.skip(i)[0] == volumes[i]);
}

proof fn lemma_first_fitting_skip(disks: Seq<DiskHint>, size_hint: u64, removable: bool, i: int)
    requires
        0 <= i < disks.len(),
    ensures
        first_fitting(disks.skip(i), size_hint, removable) == (if disk_fits(
            disks[i],
            size_hint,
            removable,
        ) {
            Some(disks[i])
        } else {
            first_fitting(disks.skip(i + 1), size_hint, removable)
        }),
{
    assert(disks.skip(i).drop_first() =~= disks.skip(i + 1));
    assert(disks.skip(i)[0] == disks[i]);
}

fn find_volume_index(volumes: &[VolumeHint], letter: &String) -> (r: Option<usize>)
    ensures
        match r {
            Some(i) => i < volumes@.len() && find_volume(volumes@, letter@) == Some(volumes@[i as int]),
            None => find_volume(volumes@, letter@) is None,
        },
{
    let mut i: usize = 0;
    assert(volumes@.skip(0) =~= volumes@);
    while i < volumes.len()
        invariant
            i <= volumes@.len(),
            find_volume(volumes@, letter@) == find_volume(volumes@.skip(i as int), letter@),
        decreases volumes.len() - i,
    {
        proof {
            lemma_find_volume_skip(volumes@, letter@, i as int);
        }
        if volumes[i].letter == *letter {
            return Some(i);
        }
        i += 1;
    }
    assert(volumes@.skip(i as int).len() == 0);
    None
}

fn disk_fits_exec(disk: &DiskHint, size_hint: u64, removable: bool) -> (r: bool)
    ensures
        r == disk_fits(*disk, size_hint, removable),
{
    let usb = contains_str(&lower_vec(&chars_of(disk.interface_type.as_str())), "usb");
    if removable {
        usb || contains_str(&lower_vec(&chars_of(disk.media_type.as_str())), "removable")
    } else {
        let diff = if disk.size_bytes >= size_hint {
            disk.size_bytes - size_hint
        } else {
            size_hint - disk.size_bytes
        };
        !usb && (size_hint == 0 || diff < 64 * 1024 * 1024)
    }
}

fn match_disk(disks: &[DiskHint], size_hint: u64, drive_kind: &str) -> (r: Option<usize>)
    ensures
        match r {
            Some(i) => i < disks@.len() && match_disk_spec(disks@, size_hint, drive_kind@) == Some(
                disks@[i as int],
            ),
            None => match_disk_spec(disks@, size_hint, drive_kind@) is None,
        },
{
    if disks.len() == 0 {
        return None;
    }
    if disks.len() == 1 {
        return Some(0);
    }
    let removable = eq_str(&chars_of(drive_kind), "removable");
    let mut i: usize = 0;
    assert(disks@.skip(0) =~= disks@);
    while i < disks.len()
        invariant
            i <= disks@.len(),
            disks@.len() > 1,
            removable == (drive_kind@ == "removable"@),
            match_disk_spec(disks@, size_hint, drive_kind@) == first_fitting(
                disks@.skip(i as int),
                size_hint,
                removable,
            ),
        decreases disks.len() - i,
    {
        proof {
            lemma_first_fitting_skip(disks@, size_hint, removable, i as int);
        }
        if disk_fits_exec(&disks[i], size_hint, removable) {
            return Some(i);
        }
        i += 1;
    }
    assert(disks@.skip(i as int).len() == 0);
    None
}

fn refuse_reason_of(class: MediaClass, allowed: bool) -> (r: Option<String>)
    ensures
        opt_view(r) == refuse_reason_spec(class, allowed),
{
    if class == MediaClass::SystemDisk {
        Some(
            owned(
                "The Windows system disk cannot be sanitised while this application is running on it (Mode S).",
            ),
        )
    } else if class == MediaClass::UsbHdd || class == MediaClass::UsbFlash {
        Some(owned("Attached USB or removable media cannot be sanitised by this application."))
    } else if class == MediaClass::Optical {
        Some(owned("Optical drives cannot be sanitised by this application."))
    } else if class == MediaClass::Network {
        Some(owned("Network locations cannot be sanitised by this application."))
    } else if allowed {
        None
    } else {
        Some(owned("Unknown or unsupported media. Mode S fails closed."))
    }
}

fn plan_one(raw: &String, volumes: &[VolumeHint], disks: &[DiskHint]) -> (t: PlannedTarget)
    ensures
        planned_for(t, raw@, volumes@, disks@),
{
    let letter = drive_key_string(raw.as_str());
    let volume = find_volume_index(volumes, &letter);
    let (is_system, drive_kind, size_hint) = match volume {
        Some(v) => (volumes[v].is_system, volumes[v].drive_kind.clone(), volumes[v].size_bytes),
        None => (false, owned("unknown"), 0u64),
    };
    let disk = match_disk(disks, size_hint, drive_kind.as_str());
    let (interface, media_type, model, serial, disk_index, size_bytes) = match disk {
        Some(d) => (
            disks[d].interface_type.clone(),
            disks[d].media_type.clone(),
            disks[d].model.clone(),
            disks[d].serial.clone(),
            disks[d].index,
            disks[d].size_bytes,
        ),
        None => (String::new(), String::new(), owned("unknown"), owned("unknown"), u32::MAX, size_hint),
    };
    let class = classify(
        is_system,
        drive_kind.as_str(),
        interface.as_str(),
        media_type.as_str(),
        model.as_str(),
    );
    let method = method_for(class);
    let usb_media = class == MediaClass::UsbHdd || class == MediaClass::UsbFlash;
    let allowed = class.mode_s_allowed() && method != MethodClass::Refused && !usb_media;
    let refuse_reason = refuse_reason_of(class, allowed);
    let bus = if interface.as_str().is_empty() {
        drive_kind
    } else {
        interface
    };
    PlannedTarget {
        letter,
        disk_index,
        media_class: class,
        method,
        model,
        serial,
        bus,
        size_bytes,
        allowed,
        refuse_reason,
    }
}

/// One plan per selected drive, in the order selected. The USB opt-in is
/// ignored: attached USB or removable media is always refused.
pub fn plan_targets(
    selected_letters: &[String],
    volumes: &[VolumeHint],
    disks: &[DiskHint],
    usb_opt_in: bool,
) -> (planned: Vec<PlannedTarget>)
    ensures
        planned@.len() == selected_letters@.len(),
        forall|i: int|
            0 <= i < planned@.len() ==> planned_for(
                #[trigger] planned@[i],
                selected_letters@[i]@,
                volumes@,
                disks@,
            ),
{
    let _ = usb_opt_in;
    let mut planned: Vec<PlannedTarget> = Vec::new();
    let mut i: usize = 0;
    while i < selected_letters.len()
        invariant
            i <= selected_letters@.len(),
            planned@.len() == i,
            forall|k: int|
                0 <= k < i ==> planned_for(
                    #[trigger] planned@[k],
                    selected_letters@[k]@,
                    volumes@,
                    disks@,
                ),
        decreases selected_letters.len() - i,
    {
        let t = plan_one(&selected_letters[i], volumes, disks);
        planned.push(t);
        i += 1;
    }
    planned
}

} // verus!
