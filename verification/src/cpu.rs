//! The processor as Windows names it: the basic, workload-free profile.

use vstd::prelude::*;
use crate::numtext::{parse_u32_or_zero, u32_or_zero};
use crate::text::{chars_of, clean, clean_field, owned, splitn, splitn_vec, trim, trim_vec, views};

verus! {

/// Prints `name|manufacturer|cores|logical processors|address width`.
pub const CPU_SCRIPT: &'static str = r#"
$cpu = Get-CimInstance -ClassName Win32_Processor | Select-Object -First 1
Write-Output ("{0}|{1}|{2}|{3}|{4}" -f $cpu.Name,$cpu.Manufacturer,$cpu.NumberOfCores,$cpu.NumberOfLogicalProcessors,$cpu.AddressWidth)
"#;

#[derive(Debug, Clone)]
pub struct CpuProfile {
    pub name: String,
    pub manufacturer: String,
    pub cores: u32,
    pub logical_processors: u32,
    pub address_width: u32,
}

pub open spec fn cpu_view(p: CpuProfile) -> (Seq<char>, Seq<char>, u32, u32, u32) {
    (p.name@, p.manufacturer@, p.cores, p.logical_processors, p.address_width)
}

/// The profile the script's output gives: five `|`-separated fields of the
/// trimmed output, or nothing when fewer than five came back.
pub open spec fn cpu_fields(stdout: Seq<char>) -> Option<(Seq<char>, Seq<char>, u32, u32, u32)> {
    let f = splitn(trim(stdout), 5, '|');
    if f.len() < 5 {
        None
    } else {
        Some((clean(f[0]), clean(f[1]), u32_or_zero(f[2]), u32_or_zero(f[3]), u32_or_zero(f[4])))
    }
}

/// The profile when nothing could be read.
pub open spec fn unknown_cpu() -> (Seq<char>, Seq<char>, u32, u32, u32) {
    ("unknown"@, "unknown"@, 0u32, 0u32, 0u32)
}

/// The processor profile. `stdout` is the script's output when it ran and
/// succeeded on Windows; otherwise every field is unknown or zero.
pub fn collect(stdout: Option<&str>) -> (p: CpuProfile)
    ensures
        cpu_view(p) == match stdout {
            Some(text) => match cpu_fields(text@) {
                Some(v) => v,
                None => unknown_cpu(),
            },
            None => unknown_cpu(),
        },
{
    let unknown = CpuProfile {
        name: owned("unknown"),
        manufacturer: owned("unknown"),
        cores: 0,
        logical_processors: 0,
        address_width: 0,
    };
    let text = match stdout {
        Some(t) => t,
        None => {
            return unknown;
        },
    };
    let f = splitn_vec(&trim_vec(&chars_of(text)), 5, '|');
    if f.len() < 5 {
        return unknown;
    }
    proof {
        assert(forall|k: int| 0 <= k < f@.len() ==> views(f@)[k] == (#[trigger] f@[k])@);
    }
    CpuProfile {
        name: clean_field(&f[0]),
        manufacturer: clean_field(&f[1]),
        cores: parse_u32_or_zero(&f[2]),
        logical_processors: parse_u32_or_zero(&f[3]),
        address_width: parse_u32_or_zero(&f[4]),
    }
}

} // verus!
