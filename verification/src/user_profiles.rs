//! Windows user profiles: which profile folders exist on this PC.

use vstd::prelude::*;
use crate::text::{
    chars_of, clean, clean_field, eq_str, lines, lines_vec, lower_seq, lower_vec, owned, splitn,
    splitn_vec, trim, trim_vec, views,
};

verus! {

/// Lists each profile as `SID|path|loaded|special`.
pub const PROFILE_SCRIPT: &'static str = r#"
Get-CimInstance Win32_UserProfile |
Where-Object { $_.LocalPath } |
ForEach-Object {
    $fields = @(
        ([string]$_.SID).Replace("|"," "),
        ([string]$_.LocalPath).Replace("|"," "),
        [string]$_.Loaded,
        [string]$_.Special
    )

    Write-Output ($fields -join "|")
}
"#;

#[derive(Debug, Clone)]
pub struct UserProfile {
    pub sid: String,
    pub path: String,
    pub loaded: bool,
    pub special: bool,
}

#[derive(Debug, Clone)]
pub struct UserProfileInventory {
    pub discovery_status: String,
    pub current_user: String,
    pub current_profile: String,
    pub profiles: Vec<UserProfile>,
}

pub open spec fn bool_text(v: Seq<char>) -> bool {
    lower_seq(trim(v)) == "true"@
}

/// The profile one output line describes: four `|`-separated fields.
pub open spec fn profile_fields(line: Seq<char>) -> Option<(Seq<char>, Seq<char>, bool, bool)> {
    let f = splitn(line, 4, '|');
    if trim(line).len() == 0 || f.len() < 4 {
        None
    } else {
        Some((clean(f[0]), clean(f[1]), bool_text(f[2]), bool_text(f[3])))
    }
}

pub open spec fn profiles_of(ls: Seq<Seq<char>>) -> Seq<(Seq<char>, Seq<char>, bool, bool)>
    decreases ls.len(),
{
    if ls.len() == 0 {
        Seq::empty()
    } else {
        match profile_fields(ls.last()) {
            Some(p) => profiles_of(ls.drop_last()).push(p),
            None => profiles_of(ls.drop_last()),
        }
    }
}

pub open spec fn profile_view(p: UserProfile) -> (Seq<char>, Seq<char>, bool, bool) {
    (p.sid@, p.path@, p.loaded, p.special)
}

fn parse_bool(v: &Vec<char>) -> (r: bool)
    ensures
        r == bool_text(v@),
{
    eq_str(&lower_vec(&trim_vec(v)), "true")
}

fn parse_profile(line: &Vec<char>) -> (r: Option<UserProfile>)
    ensures
        match r {
            Some(p) => profile_fields(line@) == Some(profile_view(p)),
            None => profile_fields(line@) is None,
        },
{
    if trim_vec(line).len() == 0 {
        return None;
    }
    let f = splitn_vec(line, 4, '|');
    if f.len() < 4 {
        return None;
    }
    proof {
        assert(views(f@)[0] == f@[0]@);
        assert(views(f@)[1] == f@[1]@);
        assert(views(f@)[2] == f@[2]@);
        assert(views(f@)[3] == f@[3]@);
    }
    Some(
        UserProfile {
            sid: clean_field(&f[0]),
            path: clean_field(&f[1]),
            loaded: parse_bool(&f[2]),
            special: parse_bool(&f[3]),
        },
    )
}

/// The profiles listed in the profile script's output, in order; blank and
/// malformed lines are skipped.
pub fn parse_profiles(stdout: &str) -> (out: Vec<UserProfile>)
    ensures
        out@.len() == profiles_of(lines(stdout@)).len(),
        forall|i: int|
            0 <= i < out@.len() ==> profile_view(#[trigger] out@[i]) == profiles_of(lines(stdout@))[i],
{
    let ls = lines_vec(&chars_of(stdout));
    let mut out: Vec<UserProfile> = Vec::new();
    let mut i: usize = 0;
    while i < ls.len()
        invariant
            i <= ls@.len(),
            views(ls@) == lines(stdout@),
            out@.len() == profiles_of(views(ls@).take(i as int)).len(),
            forall|k: int|
                0 <= k < out@.len() ==> profile_view(#[trigger] out@[k]) == profiles_of(
                    views(ls@).take(i as int),
                )[k],
        decreases ls.len() - i,
    {
        let ghost t = views(ls@).take(i + 1);
        assert(t.drop_last() =~= views(ls@).take(i as int));
        assert(t.last() == ls@[i as int]@);
        match parse_profile(&ls[i]) {
            Some(p) => {
                out.push(p);
            },
            None => {},
        }
        i += 1;
    }
    assert(views(ls@).take(ls@.len() as int) =~= views(ls@));
    out
}

pub open spec fn or_unknown(v: Option<String>) -> Seq<char> {
    match v {
        Some(s) => s@,
        None => "unknown"@,
    }
}

/// The profile inventory: off Windows nothing is listed; on Windows the
/// signed-in user and profile folder (from the environment) and the
/// profiles the script listed, if it ran.
pub fn collect(
    on_windows: bool,
    current_user: Option<String>,
    current_profile: Option<String>,
    profile_output: Option<&str>,
) -> (inv: UserProfileInventory)
    ensures
        !on_windows ==> inv.discovery_status@ == "not_windows"@ && inv.current_user@ == "unknown"@
            && inv.current_profile@ == "unknown"@ && inv.profiles@.len() == 0,
        on_windows ==> {
            &&& inv.discovery_status@ == "completed"@
            &&& inv.current_user@ == or_unknown(current_user)
            &&& inv.current_profile@ == or_unknown(current_profile)
            &&& match profile_output {
                Some(text) => inv.profiles@.len() == profiles_of(lines(text@)).len() && forall|i: int|
                    0 <= i < inv.profiles@.len() ==> profile_view(#[trigger] inv.profiles@[i])
                        == profiles_of(lines(text@))[i],
                None => inv.profiles@.len() == 0,
            }
        },
{
    if !on_windows {
        return UserProfileInventory {
            discovery_status: owned("not_windows"),
            current_user: owned("unknown"),
            current_profile: owned("unknown"),
            profiles: Vec::new(),
        };
    }
    UserProfileInventory {
        discovery_status: owned("completed"),
        current_user: match current_user {
            Some(u) => u,
            None => owned("unknown"),
        },
        current_profile: match current_profile {
            Some(p) => p,
            None => owned("unknown"),
        },
        profiles: match profile_output {
            Some(text) => parse_profiles(text),
            None => Vec::new(),
        },
    }
}

} // verus!
