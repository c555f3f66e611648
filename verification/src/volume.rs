//! Windows volumes: letter, label, file system, size and kind.

use vstd::prelude::*;
use crate::numtext::{parse_u64_or_zero, u64_or_zero};
use crate::text::{
    chars_of, clean, clean_field, eq_str, lines, lines_vec, owned, splitn, splitn_vec, trim,
    trim_vec, views,
};

verus! {

/// Lists each volume as `letter|label|filesystem|size|free|health|kind`.
pub const VOLUME_SCRIPT: &'static str = r#"
try {
    $kinds = @{}
    Get-CimInstance Win32_LogicalDisk -ErrorAction SilentlyContinue | ForEach-Object {
        if ($_.DeviceID) {
            $kinds[$_.DeviceID.Substring(0,1).ToUpper()] = [int]$_.DriveType
        }
    }
    Get-Volume -ErrorAction Stop | ForEach-Object {
        $drive = if ($null -eq $_.DriveLetter) { "" } else { [string]$_.DriveLetter }
        $kindCode = 0
        if ($drive -ne "" -and $kinds.ContainsKey($drive.ToUpper())) {
            $kindCode = [int]$kinds[$drive.ToUpper()]
        }
        $fields = @(
            $drive,
            ([string]$_.FileSystemLabel).Replace("|"," "),
            ([string]$_.FileSystem).Replace("|"," "),
            [string]$_.Size,
            [string]$_.SizeRemaining,
            [string]$_.HealthStatus,
            [string]$kindCode
        )
        Write-Output ($fields -join "|")
    }
}
catch {
    exit 3
}
"#;

#[derive(Debug, Clone)]
pub struct VolumeProfile {
    pub drive_letter: String,
    pub label: String,
    pub file_system: String,
    pub size_bytes: u64,
    pub free_bytes: u64,
    pub health_status: String,
    pub drive_kind: String,
}

impl VolumeProfile {
    /// A copy equal to this volume.
    pub fn duplicate(&self) -> (v: Self)
        ensures
            v == *self,
    {
        VolumeProfile {
            drive_letter: self.drive_letter.clone(),
            label: self.label.clone(),
            file_system: self.file_system.clone(),
            size_bytes: self.size_bytes,
            free_bytes: self.free_bytes,
            health_status: self.health_status.clone(),
            drive_kind: self.drive_kind.clone(),
        }
    }
}

/// The kind of drive a Windows `DriveType` code names.
pub open spec fn drive_kind_spec(code: Seq<char>) -> Seq<char> {
    let c = trim(code);
    if c == "2"@ {
        "removable"@
    } else if c == "3"@ {
        "internal"@
    } else if c == "4"@ {
        "network"@
    } else if c == "5"@ {
        "optical"@
    } else {
        "other"@
    }
}

pub fn drive_kind_from_code(value: &Vec<char>) -> (kind: String)
    ensures
        kind@ == drive_kind_spec(value@),
{
    let c = trim_vec(value);
    if eq_str(&c, "2") {
        owned("removable")
    } else if eq_str(&c, "3") {
        owned("internal")
    } else if eq_str(&c, "4") {
        owned("network")
    } else if eq_str(&c, "5") {
        owned("optical")
    } else {
        owned("other")
    }
}

pub open spec fn volume_view(v: VolumeProfile) -> (Seq<char>, Seq<char>, Seq<char>, u64, u64, Seq<char>, Seq<char>) {
    (v.drive_letter@, v.label@, v.file_system@, v.size_bytes, v.free_bytes, v.health_status@, v.drive_kind@)
}

/// The volume one output line describes: six `|`-separated fields, and a
/// seventh kind code that reads as 0 when missing.
pub open spec fn volume_fields(line: Seq<char>) -> Option<(Seq<char>, Seq<char>, Seq<char>, u64, u64, Seq<char>, Seq<char>)> {
    let f = splitn(line, 7, '|');
    if trim(line).len() == 0 || f.len() < 6 {
        None
    } else {
        Some(
            (
                clean(f[0]),
                clean(f[1]),
                clean(f[2]),
                u64_or_zero(f[3]),
                u64_or_zero(f[4]),
                clean(f[5]),
                drive_kind_spec(
                    if f.len() > 6 {
                        f[6]
                    } else {
                        "0"@
                    },
                ),
            ),
        )
    }
}

pub open spec fn volumes_of(ls: Seq<Seq<char>>) -> Seq<(Seq<char>, Seq<char>, Seq<char>, u64, u64, Seq<char>, Seq<char>)>
    decreases ls.len(),
{
    if ls.len() == 0 {
        Seq::empty()
    } else {
        match volume_fields(ls.last()) {
            Some(v) => volumes_of(ls.drop_last()).push(v),
            None => volumes_of(ls.drop_last()),
        }
    }
}

pub fn parse_volume(line: &Vec<char>) -> (r: Option<VolumeProfile>)
    ensures
        match r {
            Some(v) => volume_fields(line@) == Some(volume_view(v)),
            None => volume_fields(line@) is None,
        },
{
    if trim_vec(line).len() == 0 {
        return None;
    }
    let f = splitn_vec(line, 7, '|');
    if f.len() < 6 {
        return None;
    }
    proof {
        assert(forall|k: int| 0 <= k < f@.len() ==> views(f@)[k] == (#[trigger] f@[k])@);
    }
    let kind = if f.len() > 6 {
        drive_kind_from_code(&f[6])
    } else {
        drive_kind_from_code(&chars_of("0"))
    };
    Some(
        VolumeProfile {
            drive_letter: clean_field(&f[0]),
            label: clean_field(&f[1]),
            file_system: clean_field(&f[2]),
            size_bytes: parse_u64_or_zero(&f[3]),
            free_bytes: parse_u64_or_zero(&f[4]),
            health_status: clean_field(&f[5]),
            drive_kind: kind,
        },
    )
}

/// The volumes listed in the volume script's output, in order; blank and
/// malformed lines are skipped. Off Windows, or when the script failed,
/// there are none.
pub fn collect(volume_output: Option<&str>) -> (out: Vec<VolumeProfile>)
    ensures
        match volume_output {
            Some(text) => out@.len() == volumes_of(lines(text@)).len() && forall|i: int|
                0 <= i < out@.len() ==> volume_view(#[trigger] out@[i]) == volumes_of(lines(text@))[i],
            None => out@.len() == 0,
        },
{
    let text = match volume_output {
        Some(t) => t,
        None => {
            return Vec::new();
        },
    };
    let ls = lines_vec(&chars_of(text));
    let mut out: Vec<VolumeProfile> = Vec::new();
    let mut i: usize = 0;
    while i < ls.len()
        invariant
            i <= ls@.len(),
            views(ls@) == lines(text@),
            out@.len() == volumes_of(views(ls@).take(i as int)).len(),
            forall|k: int|
                0 <= k < out@.len() ==> volume_view(#[trigger] out@[k]) == volumes_of(
                    views(ls@).take(i as int),
                )[k],
        decreases ls.len() - i,
    {
        let ghost t = views(ls@).take(i + 1);
        assert(t.drop_last() =~= views(ls@).take(i as int));
        assert(t.last() == ls@[i as int]@);
        match parse_volume(&ls[i]) {
            Some(v) => {
                out.push(v);
            },
            None => {},
        }
        i += 1;
    }
    assert(views(ls@).take(ls@.len() as int) =~= views(ls@));
    out
}

} // verus!
