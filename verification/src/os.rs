//! The operating system the assessment runs on.

use vstd::prelude::*;
use crate::text::{chars_of, clean, clean_field, owned, splitn, splitn_vec, trim, trim_vec, views};

verus! {

/// Prints `caption|version|build number`.
pub const OS_SCRIPT: &'static str = r#"
$os = Get-CimInstance -ClassName Win32_OperatingSystem
Write-Output ("{0}|{1}|{2}" -f $os.Caption,$os.Version,$os.BuildNumber)
"#;

#[derive(Debug, Clone)]
pub struct OsProfile {
    pub operating_system: &'static str,
    pub family: &'static str,
    pub architecture: &'static str,
    pub caption: String,
    pub version: String,
    pub build_number: String,
}

/// Caption, version and build from the script's trimmed output, or nothing
/// when fewer than three fields came back.
pub open spec fn os_fields(stdout: Seq<char>) -> Option<(Seq<char>, Seq<char>, Seq<char>)> {
    let f = splitn(trim(stdout), 3, '|');
    if f.len() < 3 {
        None
    } else {
        Some((clean(f[0]), clean(f[1]), clean(f[2])))
    }
}

/// The OS profile. The three names are the build target's; `stdout` is the
/// script's output when it ran and succeeded on Windows. Whatever could not
/// be read stays `unknown`.
pub fn collect(
    operating_system: &'static str,
    family: &'static str,
    architecture: &'static str,
    stdout: Option<&str>,
) -> (p: OsProfile)
    ensures
        p.operating_system == operating_system,
        p.family == family,
        p.architecture == architecture,
        (p.caption@, p.version@, p.build_number@) == match stdout {
            Some(text) => match os_fields(text@) {
                Some(v) => v,
                None => ("unknown"@, "unknown"@, "unknown"@),
            },
            None => ("unknown"@, "unknown"@, "unknown"@),
        },
{
    let mut profile = OsProfile {
        operating_system,
        family,
        architecture,
        caption: owned("unknown"),
        version: owned("unknown"),
        build_number: owned("unknown"),
    };
    if let Some(text) = stdout {
        let f = splitn_vec(&trim_vec(&chars_of(text)), 3, '|');
        if f.len() >= 3 {
            proof {
                assert(forall|k: int| 0 <= k < f@.len() ==> views(f@)[k] == (#[trigger] f@[k])@);
            }
            profile.caption = clean_field(&f[0]);
            profile.version = clean_field(&f[1]);
            profile.build_number = clean_field(&f[2]);
        }
    }
    profile
}

} // verus!
