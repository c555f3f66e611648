//! Physical disks as Windows lists them: a read-only inventory.

use vstd::prelude::*;
use crate::numtext::{parse_u32_or_zero, parse_u64_or_zero, u32_or_zero, u64_or_zero};
use crate::text::{chars_of, clean, clean_field, lines, lines_vec, owned, splitn, splitn_vec, trim, trim_vec, views};

verus! {

/// Lists each disk as `index|model|serial|size|interface|media|firmware`.
pub const DISK_SCRIPT: &'static str = r#"
Get-CimInstance -ClassName Win32_DiskDrive | ForEach-Object {
    $fields = @(
        [string]$_.Index,
        ([string]$_.Model).Replace("|"," "),
        ([string]$_.SerialNumber).Replace("|"," "),
        [string]$_.Size,
        ([string]$_.InterfaceType).Replace("|"," "),
        ([string]$_.MediaType).Replace("|"," "),
        ([string]$_.FirmwareRevision).Replace("|"," ")
    )

    Write-Output ($fields -join "|")
}
"#;

#[derive(Debug, Clone)]
pub struct PhysicalDisk {
    pub index: u32,
    pub model: String,
    pub serial_number: String,
    pub size_bytes: u64,
    pub interface_type: String,
    pub media_type: String,
    pub firmware_revision: String,
}

#[derive(Debug, Clone)]
pub struct StorageProfile {
    pub discovery_status: String,
    pub destructive_operations_enabled: bool,
    pub note: String,
    pub disks: Vec<PhysicalDisk>,
}

pub open spec fn disk_view(d: PhysicalDisk) -> (u32, Seq<char>, Seq<char>, u64, Seq<char>, Seq<char>, Seq<char>) {
    (d.index, d.model@, d.serial_number@, d.size_bytes, d.interface_type@, d.media_type@, d.firmware_revision@)
}

/// The disk one output line describes: seven `|`-separated fields, numbers
/// reading as 0 when they do not parse and text as `unknown` when blank.
pub open spec fn disk_fields(line: Seq<char>) -> Option<(u32, Seq<char>, Seq<char>, u64, Seq<char>, Seq<char>, Seq<char>)> {
    let f = splitn(line, 7, '|');
    if trim(line).len() == 0 || f.len() < 7 {
        None
    } else {
        Some((u32_or_zero(f[0]), clean(f[1]), clean(f[2]), u64_or_zero(f[3]), clean(f[4]), clean(f[5]), clean(f[6])))
    }
}

pub open spec fn disks_of(ls: Seq<Seq<char>>) -> Seq<(u32, Seq<char>, Seq<char>, u64, Seq<char>, Seq<char>, Seq<char>)>
    decreases ls.len(),
{
    if ls.len() == 0 {
        Seq::empty()
    } else {
        match disk_fields(ls.last()) {
            Some(d) => disks_of(ls.drop_last()).push(d),
            None => disks_of(ls.drop_last()),
        }
    }
}

pub fn parse_disk(line: &Vec<char>) -> (r: Option<PhysicalDisk>)
    ensures
        match r {
            Some(d) => disk_fields(line@) == Some(disk_view(d)),
            None => disk_fields(line@) is None,
        },
{
    if trim_vec(line).len() == 0 {
        return None;
    }
    let f = splitn_vec(line, 7, '|');
    if f.len() < 7 {
        return None;
    }
    proof {
        assert(forall|k: int| 0 <= k < f@.len() ==> views(f@)[k] == (#[trigger] f@[k])@);
    }
    Some(
        PhysicalDisk {
            index: parse_u32_or_zero(&f[0]),
            model: clean_field(&f[1]),
            serial_number: clean_field(&f[2]),
            size_bytes: parse_u64_or_zero(&f[3]),
            interface_type: clean_field(&f[4]),
            media_type: clean_field(&f[5]),
            firmware_revision: clean_field(&f[6]),
        },
    )
}

/// The disks in the disk script's output, in order; blank and short lines are skipped.
pub fn parse_disks(text: &str) -> (out: Vec<PhysicalDisk>)
    ensures
        out@.len() == disks_of(lines(text@)).len(),
        forall|i: int| 0 <= i < out@.len() ==> disk_view(#[trigger] out@[i]) == disks_of(lines(text@))[i],
{
    let ls = lines_vec(&chars_of(text));
    let mut out: Vec<PhysicalDisk> = Vec::new();
    let mut i: usize = 0;
    while i < ls.len()
        invariant
            i <= ls@.len(),
            views(ls@) == lines(text@),
            out@.len() == disks_of(views(ls@).take(i as int)).len(),
            forall|k: int|
                0 <= k < out@.len() ==> disk_view(#[trigger] out@[k]) == disks_of(views(ls@).take(i as int))[k],
        decreases ls.len() - i,
    {
        let ghost t = views(ls@).take(i + 1);
        assert(t.drop_last() =~= views(ls@).take(i as int));
        assert(t.last() == ls@[i as int]@);
        match parse_disk(&ls[i]) {
            Some(d) => {
                out.push(d);
            },
            None => {},
        }
        i += 1;
    }
    assert(views(ls@).take(ls@.len() as int) =~= views(ls@));
    out
}

/// The storage profile: off Windows nothing is scanned; when the disk script
/// failed (`None`) the inventory is reported as not collected. Destructive
/// operations are never enabled.
pub fn collect(on_windows: bool, disk_output: Option<&str>) -> (p: StorageProfile)
    ensures
        !p.destructive_operations_enabled,
        !on_windows ==> {
            &&& p.discovery_status@ == "not_windows"@
            &&& p.note@ == "Windows physical-disk scanning is disabled because this executable is not running on Windows."@
            &&& p.disks@.len() == 0
        },
        on_windows ==> match disk_output {
            Some(text) => {
                &&& p.discovery_status@ == "completed"@
                &&& p.note@ == "Read-only Windows physical-disk inventory completed."@
                &&& p.disks@.len() == disks_of(lines(text@)).len()
                &&& forall|i: int| 0 <= i < p.disks@.len() ==> disk_view(#[trigger] p.disks@[i]) == disks_of(lines(text@))[i]
            },
            None => {
                &&& p.discovery_status@ == "collection_failed"@
                &&& p.note@ == "Windows physical-disk inventory could not be collected."@
                &&& p.disks@.len() == 0
            },
        },
{
    if !on_windows {
        return StorageProfile {
            discovery_status: owned("not_windows"),
            destructive_operations_enabled: false,
            note: owned("Windows physical-disk scanning is disabled because this executable is not running on Windows."),
            disks: Vec::new(),
        };
    }
    match disk_output {
        Some(text) => StorageProfile {
            discovery_status: owned("completed"),
            destructive_operations_enabled: false,
            note: owned("Read-only Windows physical-disk inventory completed."),
            disks: parse_disks(text),
        },
        None => StorageProfile {
            discovery_status: owned("collection_failed"),
            destructive_operations_enabled: false,
            note: owned("Windows physical-disk inventory could not be collected."),
            disks: Vec::new(),
        },
    }
}

} // verus!
