//! BitLocker status and protector types. No recovery password or key
//! material is ever read.

use vstd::prelude::*;
use crate::numtext::{parse_u32_or_zero, u32_or_zero};
use crate::text::{
    chars_of, clean, clean_field, eq_str, lines, lines_vec, owned, split_on, split_vec, splitn,
    splitn_vec, string_of, string_views, trim, trim_vec, views,
};

verus! {

/// Lists each BitLocker volume as
/// `mount point|volume status|protection|percentage|method|protector,...`.
pub const BITLOCKER_SCRIPT: &'static str = r#"
if ($null -eq (Get-Command Get-BitLockerVolume -ErrorAction SilentlyContinue)) {
    exit 4
}

try {
    Get-BitLockerVolume -ErrorAction Stop | ForEach-Object {
        $protectorTypes = @(
            $_.KeyProtector | ForEach-Object {
                [string]$_.KeyProtectorType
            }
        ) -join ","

        $fields = @(
            ([string]$_.MountPoint).Replace("|"," "),
            [string]$_.VolumeStatus,
            [string]$_.ProtectionStatus,
            [string]$_.EncryptionPercentage,
            [string]$_.EncryptionMethod,
            $protectorTypes
        )

        Write-Output ($fields -join "|")
    }
}
catch {
    exit 5
}
"#;

/// Prints `true` when the current account holds administrator rights.
pub const ELEVATION_SCRIPT: &'static str = r#"
$identity = [Security.Principal.WindowsIdentity]::GetCurrent()
$principal = New-Object Security.Principal.WindowsPrincipal($identity)

if ($principal.IsInRole([Security.Principal.WindowsBuiltInRole]::Administrator)) {
    Write-Output "true"
} else {
    Write-Output "false"
}
"#;

#[derive(Debug, Clone)]
pub struct EncryptionVolume {
    pub mount_point: String,
    pub volume_status: String,
    pub protection_status: String,
    pub encryption_percentage: u32,
    pub encryption_method: String,
    pub key_protector_types: Vec<String>,
}

#[derive(Debug, Clone)]
pub struct EncryptionProfile {
    pub collection_status: String,
    pub note: String,
    pub volumes: Vec<EncryptionVolume>,
}

/// The protector types of a comma-separated list: each trimmed, blanks dropped.
pub open spec fn protector_list(field: Seq<char>) -> Seq<Seq<char>> {
    split_on(field, ',').map_values(|p: Seq<char>| trim(p)).filter(|p: Seq<char>| p.len() > 0)
}

pub type VolumeView = (Seq<char>, Seq<char>, Seq<char>, u32, Seq<char>);

pub open spec fn volume_view(v: EncryptionVolume) -> (VolumeView, Seq<Seq<char>>) {
    (
        (v.mount_point@, v.volume_status@, v.protection_status@, v.encryption_percentage, v.encryption_method@),
        string_views(v.key_protector_types@),
    )
}

/// The volume one output line describes: six `|`-separated fields.
pub open spec fn volume_fields(line: Seq<char>) -> Option<(VolumeView, Seq<Seq<char>>)> {
    let f = splitn(line, 6, '|');
    if trim(line).len() == 0 || f.len() < 6 {
        None
    } else {
        Some(((clean(f[0]), clean(f[1]), clean(f[2]), u32_or_zero(f[3]), clean(f[4])), protector_list(f[5])))
    }
}

pub open spec fn volumes_of(ls: Seq<Seq<char>>) -> Seq<(VolumeView, Seq<Seq<char>>)>
    decreases ls.len(),
{
    if ls.len() == 0 {
        Seq::empty()
    } else {
        match volume_fields(ls.last()) {
            Some(v) => volumes_of(ls.drop_last()).push(v),
            None => volumes_of(ls.drop_last()),
        }
    }
}

fn protector_types(field: &Vec<char>) -> (out: Vec<String>)
    ensures
        string_views(out@) == protector_list(field@),
{
    let parts = split_vec(field, ',');
    let ghost trimmed = views(parts@).map_values(|p: Seq<char>| trim(p));
    let mut out: Vec<String> = Vec::new();
    let mut i: usize = 0;
    while i < parts.len()
        invariant
            i <= parts@.len(),
            views(parts@) == split_on(field@, ','),
            trimmed == views(parts@).map_values(|p: Seq<char>| trim(p)),
            string_views(out@) == trimmed.take(i as int).filter(|p: Seq<char>| p.len() > 0),
        decreases parts.len() - i,
    {
        let ghost pre = trimmed.take(i as int);
        assert(trimmed.take(i + 1).drop_last() =~= pre);
        reveal_with_fuel(Seq::<_>::filter, 1);
        let t = trim_vec(&parts[i]);
        assert(trimmed[i as int] == t@);
        if t.len() > 0 {
            let s = string_of(&t);
            out.push(s);
            assert(string_views(out@) =~= pre.filter(|p: Seq<char>| p.len() > 0).push(t@));
        } else {
            assert(string_views(out@) =~= pre.filter(|p: Seq<char>| p.len() > 0));
        }
        i += 1;
    }
    assert(trimmed.take(parts.len() as int) =~= trimmed);
    out
}

pub fn parse_volume(line: &Vec<char>) -> (r: Option<EncryptionVolume>)
    ensures
        match r {
            Some(v) => volume_fields(line@) == Some(volume_view(v)),
            None => volume_fields(line@) is None,
        },
{
    if trim_vec(line).len() == 0 {
        return None;
    }
    let f = splitn_vec(line, 6, '|');
    if f.len() < 6 {
        return None;
    }
    proof {
        assert(forall|k: int| 0 <= k < f@.len() ==> views(f@)[k] == (#[trigger] f@[k])@);
    }
    Some(
        EncryptionVolume {
            mount_point: clean_field(&f[0]),
            volume_status: clean_field(&f[1]),
            protection_status: clean_field(&f[2]),
            encryption_percentage: parse_u32_or_zero(&f[3]),
            encryption_method: clean_field(&f[4]),
            key_protector_types: protector_types(&f[5]),
        },
    )
}

/// The BitLocker volumes in the script's output, in order.
pub fn parse_volumes(text: &str) -> (out: Vec<EncryptionVolume>)
    ensures
        out@.len() == volumes_of(lines(text@)).len(),
        forall|i: int| 0 <= i < out@.len() ==> volume_view(#[trigger] out@[i]) == volumes_of(lines(text@))[i],
{
    let ls = lines_vec(&chars_of(text));
    let mut out: Vec<EncryptionVolume> = Vec::new();
    let mut i: usize = 0;
    while i < ls.len()
        invariant
            i <= ls@.len(),
            views(ls@) == lines(text@),
            out@.len() == volumes_of(views(ls@).take(i as int)).len(),
            forall|k: int|
                0 <= k < out@.len() ==> volume_view(#[trigger] out@[k]) == volumes_of(views(ls@).take(i as int))[k],
        decreases ls.len() - i,
    {
        let ghost t = views(ls@).take(i + 1);
        assert(t.drop_last() =~= views(ls@).take(i as int));
        assert(t.last() == ls@[i as int]@);
        match parse_volume(&ls[i]) {
            Some(v) => {
                out.push(v);
            },
            None => {},
        }
        i += 1;
    }
    assert(views(ls@).take(ls@.len() as int) =~= views(ls@));
    out
}

/// Whether the elevation script reported administrator rights: `true`,
/// `false`, or nothing when it printed anything else.
pub fn elevation_from(stdout: &str) -> (r: Option<bool>)
    ensures
        r == (if trim(stdout@) == "true"@ {
            Some(true)
        } else if trim(stdout@) == "false"@ {
            Some(false)
        } else {
            None
        }),
{
    let t = trim_vec(&chars_of(stdout));
    if eq_str(&t, "true") {
        Some(true)
    } else if eq_str(&t, "false") {
        Some(false)
    } else {
        None
    }
}

/// The encryption profile. Off Windows nothing is read; an account known to
/// lack administrator rights is asked to elevate; otherwise the BitLocker
/// listing (`None` when the script failed) decides.
pub fn collect(on_windows: bool, elevated: Option<bool>, bitlocker_output: Option<&str>) -> (p: EncryptionProfile)
    ensures
        !on_windows ==> {
            &&& p.collection_status@ == "not_windows"@
            &&& p.note@ == "BitLocker discovery is available only on Windows."@
            &&& p.volumes@.len() == 0
        },
        on_windows && elevated == Some(false) ==> {
            &&& p.collection_status@ == "requires_elevation"@
            &&& p.note@ == "Administrator privileges are required to collect BitLocker status on this Windows device."@
            &&& p.volumes@.len() == 0
        },
        on_windows && elevated != Some(false) ==> match bitlocker_output {
            Some(text) => {
                &&& p.collection_status@ == "completed"@
                &&& p.note@ == "Only BitLocker status and protector types are collected. No recovery passwords or key material are collected."@
                &&& p.volumes@.len() == volumes_of(lines(text@)).len()
                &&& forall|i: int| 0 <= i < p.volumes@.len() ==> volume_view(#[trigger] p.volumes@[i]) == volumes_of(lines(text@))[i]
            },
            None => {
                &&& p.collection_status@ == "unavailable"@
                &&& p.note@ == "BitLocker information could not be collected."@
                &&& p.volumes@.len() == 0
            },
        },
{
    if !on_windows {
        return EncryptionProfile {
            collection_status: owned("not_windows"),
            note: owned("BitLocker discovery is available only on Windows."),
            volumes: Vec::new(),
        };
    }
    if elevated == Some(false) {
        return EncryptionProfile {
            collection_status: owned("requires_elevation"),
            note: owned("Administrator privileges are required to collect BitLocker status on this Windows device."),
            volumes: Vec::new(),
        };
    }
    match bitlocker_output {
        Some(text) => EncryptionProfile {
            collection_status: owned("completed"),
            note: owned("Only BitLocker status and protector types are collected. No recovery passwords or key material are collected."),
            volumes: parse_volumes(text),
        },
        None => EncryptionProfile {
            collection_status: owned("unavailable"),
            note: owned("BitLocker information could not be collected."),
            volumes: Vec::new(),
        },
    }
}

} // verus!
