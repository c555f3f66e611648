//! The decisions around the consented Advance scan workloads: when a
//! workload may start, how the sustained clock is judged, and the memory
//! pattern. Timing, files and the workloads themselves run outside.

use vstd::prelude::*;
use crate::battery_probe::BatteryProbe;
use crate::cpu_memory::CpuMemoryProbe;
use crate::hardware_diagnostics_v1::CriticalFault;
use crate::numtext::{dec, parse_u32, parse_u32_spec, push_dec};
use crate::probe_protocol::{hex_text, hex_text_spec};
use crate::storage_health::StorageProbe;
use crate::text::{append_str, chars_of, eq_str, lines, lines_vec, owned, split_on, split_vec, string_of, views};

verus! {

/// Samples the current and maximum processor clock, one protocol line each.
pub const CLOCK_SAMPLE_SCRIPT: &'static str = r#"
$ErrorActionPreference = 'Stop'
$p = Get-CimInstance -ClassName Win32_Processor | Select-Object -First 1
$cur = [Convert]::ToString($p.CurrentClockSpeed, [Globalization.CultureInfo]::InvariantCulture)
$max = [Convert]::ToString($p.MaxClockSpeed, [Globalization.CultureInfo]::InvariantCulture)
$c = -join ([Text.Encoding]::UTF8.GetBytes($cur) | ForEach-Object { $_.ToString('x2') })
$m = -join ([Text.Encoding]::UTF8.GetBytes($max) | ForEach-Object { $_.ToString('x2') })
[Console]::Out.WriteLine("cpu`t0`tcurrent_mhz`t$c")
[Console]::Out.WriteLine("cpu`t0`tmax_mhz`t$m")
"#;

/// What a declined workload reports.
pub const DECLINED: &'static str = "Declined by the operator. No benchmark was run and nothing was written.";

#[derive(Debug, Clone, PartialEq, Eq)]
pub struct CpuBench {
    pub status: String,
    pub current_mhz: Option<u32>,
    pub max_mhz: Option<u32>,
    pub ratio: Option<u32>,
}

/// The CPU result when no workload ran, for `status`.
pub fn cpu_not_run(status: &str) -> (b: CpuBench)
    ensures
        b.status@ == status@,
        b.current_mhz is None,
        b.max_mhz is None,
        b.ratio is None,
{
    CpuBench { status: owned(status), current_mhz: None, max_mhz: None, ratio: None }
}

/// The CPU loop does not start when the pack Report D reports on is
/// charged to 5% or less.
pub open spec fn battery_too_low(battery: BatteryProbe) -> bool {
    match crate::battery_probe::primary_index(battery.readings@) {
        Some(i) => battery.readings@[i].charge_percent matches Some(c) && c <= 5,
        None => false,
    }
}

/// The CPU result when the battery was too low to start the loop: the
/// processor's known maximum clock only.
pub fn cpu_blocked_by_battery(battery: &BatteryProbe, identity: &CpuMemoryProbe) -> (b: Option<CpuBench>)
    ensures
        match b {
            Some(bench) => {
                &&& battery_too_low(*battery)
                &&& bench.status@
                    == "CPU workload was not started because the battery charge is critical (5% or below)."@
                &&& bench.current_mhz is None
                &&& bench.max_mhz == (match identity.processor {
                    Some(cpu) => cpu.max_mhz,
                    None => None,
                })
                &&& bench.ratio is None
            },
            None => !battery_too_low(*battery),
        },
{
    if let Some(reading) = battery.primary() {
        match reading.charge_percent {
            Some(c) => {
                if c <= 5 {
                    let max = match &identity.processor {
                        Some(cpu) => cpu.max_mhz,
                        None => None,
                    };
                    return Some(
                        CpuBench {
                            status: owned(
                                "CPU workload was not started because the battery charge is critical (5% or below).",
                            ),
                            current_mhz: None,
                            max_mhz: max,
                            ratio: None,
                        },
                    );
                }
            },
            None => {},
        }
    }
    None
}

/// The sustained clock as a whole percent of the maximum, rounded down.
pub open spec fn ratio_spec(current: Option<u32>, max: Option<u32>) -> Option<u32> {
    match (current, max) {
        (Some(c), Some(m)) => if m > 0 {
            Some(((c as nat * 100) / (m as nat)) as u32)
        } else {
            None
        },
        _ => None,
    }
}

/// The CPU result after the loop, from the clocks Windows reported.
pub fn cpu_after_loop(current: Option<u32>, max: Option<u32>) -> (b: CpuBench)
    ensures
        b.current_mhz == current,
        b.max_mhz == max,
        b.ratio == ratio_spec(current, max),
        b.status@ == match ratio_spec(current, max) {
            Some(p) => "CPU workload finished. Windows reported "@ + dec(
                match current {
                    Some(c) => c as nat,
                    None => 0,
                },
            ) + " MHz after the loop against a maximum of "@ + dec(
                match max {
                    Some(m) => m as nat,
                    None => 0,
                },
            ) + " MHz ("@ + dec(p as nat)
                + "% of maximum). Package temperature is not collected."@,
            None => "CPU workload finished. Windows did not return both current and maximum clock, so the sustained-clock ratio stays not assessable. Package temperature is not collected."@,
        },
{
    let ratio: Option<u32> = match (current, max) {
        (Some(c), Some(m)) => {
            if m > 0 {
                let r: u64 = (c as u64 * 100) / m as u64;
                Some(#[verifier::truncate] (r as u32))
            } else {
                None
            }
        },
        _ => None,
    };
    let status = match ratio {
        Some(p) => {
            let mut out = chars_of("CPU workload finished. Windows reported ");
            push_dec(
                &mut out,
                match current {
                    Some(c) => c as u64,
                    None => 0,
                },
            );
            append_str(&mut out, " MHz after the loop against a maximum of ");
            push_dec(
                &mut out,
                match max {
                    Some(m) => m as u64,
                    None => 0,
                },
            );
            append_str(&mut out, " MHz (");
            push_dec(&mut out, p as u64);
            append_str(&mut out, "% of maximum). Package temperature is not collected.");
            string_of(&out)
        },
        None => owned(
            "CPU workload finished. Windows did not return both current and maximum clock, so the sustained-clock ratio stays not assessable. Package temperature is not collected.",
        ),
    };
    CpuBench { status, current_mhz: current, max_mhz: max, ratio }
}

/// The clocks a clock sample reports: the last readable `cpu` index 0
/// `current_mhz` and `max_mhz` lines, each a hex-encoded whole number.
pub open spec fn clock_line(line: Seq<char>, name: Seq<char>) -> Option<u32> {
    let parts = split_on(line, '\t');
    if parts.len() >= 4 && parts[0] == "cpu"@ && parts[1] == "0"@ && parts[2] == name {
        match hex_text_spec(parts[3]) {
            Some(text) => parse_u32_spec(text),
            None => None,
        }
    } else {
        None
    }
}

pub open spec fn last_clock(ls: Seq<Seq<char>>, name: Seq<char>) -> Option<u32>
    decreases ls.len(),
{
    if ls.len() == 0 {
        None
    } else {
        match clock_line(ls.last(), name) {
            Some(v) => Some(v),
            None => last_clock(ls.drop_last(), name),
        }
    }
}

fn clock_of(line: &Vec<char>, name: &str) -> (r: Option<u32>)
    ensures
        r == clock_line(line@, name@),
{
    let parts = split_vec(line, '\t');
    if parts.len() < 4 {
        return None;
    }
    proof {
        assert(forall|k: int| 0 <= k < parts@.len() ==> views(parts@)[k] == (#[trigger] parts@[k])@);
    }
    if !eq_str(&parts[0], "cpu") || !eq_str(&parts[1], "0") || !eq_str(&parts[2], name) {
        return None;
    }
    match hex_text(&parts[3]) {
        Some(text) => parse_u32(&chars_of(text.as_str())),
        None => None,
    }
}

/// The current and maximum clocks a clock sample's output reports.
pub fn parse_clock_sample(text: &str) -> (r: (Option<u32>, Option<u32>))
    ensures
        r.0 == last_clock(lines(text@), "current_mhz"@),
        r.1 == last_clock(lines(text@), "max_mhz"@),
{
    let ls = lines_vec(&chars_of(text));
    let mut current: Option<u32> = None;
    let mut max: Option<u32> = None;
    let mut i: usize = 0;
    while i < ls.len()
        invariant
            i <= ls@.len(),
            views(ls@) == lines(text@),
            current == last_clock(views(ls@).take(i as int), "current_mhz"@),
            max == last_clock(views(ls@).take(i as int), "max_mhz"@),
        decreases ls.len() - i,
    {
        let ghost t = views(ls@).take(i + 1);
        assert(t.drop_last() =~= views(ls@).take(i as int));
        assert(t.last() == ls@[i as int]@);
        match clock_of(&ls[i], "current_mhz") {
            Some(v) => {
                current = Some(v);
            },
            None => {},
        }
        match clock_of(&ls[i], "max_mhz") {
            Some(v) => {
                max = Some(v);
            },
            None => {},
        }
        i += 1;
    }
    assert(views(ls@).take(ls@.len() as int) =~= views(ls@));
    (current, max)
}

/// The clocks to judge: the sample when it ran, else what identity reported.
pub fn clocks_or_identity(sampled: Option<(Option<u32>, Option<u32>)>, identity: &CpuMemoryProbe) -> (r: (
    Option<u32>,
    Option<u32>,
))
    ensures
        r == match sampled {
            Some(s) => s,
            None => match identity.processor {
                Some(cpu) => (cpu.current_mhz, cpu.max_mhz),
                None => (None, None),
            },
        },
{
    match sampled {
        Some(s) => s,
        None => match &identity.processor {
            Some(cpu) => (cpu.current_mhz, cpu.max_mhz),
            None => (None, None),
        },
    }
}

/// The byte the memory spot check writes at `index`.
pub open spec fn pattern_spec(index: int) -> u8 {
    (((index % 256) * 31 + 0xA5) % 256) as u8
}

pub fn pattern_byte(index: usize) -> (b: u8)
    ensures
        b == pattern_spec(index as int),
{
    let low: u8 = (index % 256) as u8;
    let b = low.wrapping_mul(31).wrapping_add(0xA5);
    assert(b == ((low as int * 31 + 0xA5) % 256) as u8) by (bit_vector)
        requires
            b == low.wrapping_mul(31).wrapping_add(0xA5),
    ;
    b
}

/// The size of the region the memory spot check covers: half of the
/// memory Windows reports available (64 MiB when unknown), between 1 MiB
/// and 32 MiB.
pub open spec fn pattern_target(available: Option<u64>) -> nat {
    let half = (match available {
        Some(a) => a,
        None => 67108864,
    }) / 2;
    if half < 1048576 {
        1048576
    } else if half > 33554432 {
        33554432
    } else {
        half as nat
    }
}

pub fn pattern_region(available: Option<u64>) -> (n: usize)
    ensures
        n == pattern_target(available),
{
    let a = match available {
        Some(a) => a,
        None => 67108864,
    };
    let half = a / 2;
    if half < 1048576 {
        1048576
    } else if half > 33554432 {
        33554432
    } else {
        half as usize
    }
}

/// Fill `buffer` with the pattern, then read it back. True when every byte
/// read back is the one written.
pub fn pattern_spot_check(buffer: &mut Vec<u8>) -> (passed: bool)
    ensures
        final(buffer)@.len() == old(buffer)@.len(),
        forall|i: int| 0 <= i < final(buffer)@.len() ==> final(buffer)@[i] == pattern_spec(i),
        passed,
{
    let mut i: usize = 0;
    while i < buffer.len()
        invariant
            i <= buffer@.len(),
            buffer@.len() == old(buffer)@.len(),
            forall|k: int| 0 <= k < i ==> buffer@[k] == pattern_spec(k),
        decreases buffer.len() - i,
    {
        let b = pattern_byte(i);
        buffer.set(i, b);
        i += 1;
    }
    let mut passed = true;
    let mut j: usize = 0;
    while j < buffer.len()
        invariant
            j <= buffer@.len(),
            forall|k: int| 0 <= k < buffer@.len() ==> buffer@[k] == pattern_spec(k),
            passed,
        decreases buffer.len() - j,
    {
        if buffer[j] != pattern_byte(j) {
            passed = false;
            break;
        }
        j += 1;
    }
    passed
}

/// A failed memory spot check is the critical memory fault.
pub fn memory_critical(pattern_passed: Option<bool>) -> (f: Option<CriticalFault>)
    ensures
        f == (if pattern_passed == Some(false) {
            Some(CriticalFault::MemoryIntegrityMismatch)
        } else {
            None
        }),
{
    match pattern_passed {
        Some(false) => Some(CriticalFault::MemoryIntegrityMismatch),
        _ => None,
    }
}

/// Storage workloads do not start when a scored drive predicts failure.
pub open spec fn storage_blocked_spec(storage: StorageProbe) -> bool {
    exists|i: int|
        0 <= i < crate::storage_health::scoring_spec(storage.drives@).len()
            && (#[trigger] crate::storage_health::scoring_spec(storage.drives@)[i]).predicts_failure == Some(true)
}

pub fn storage_blocked(storage: &StorageProbe) -> (r: bool)
    ensures
        r == storage_blocked_spec(*storage),
{
    let drives = storage.scoring_drives();
    let mut i: usize = 0;
    while i < drives.len()
        invariant
            i <= drives@.len(),
            drives@.len() == crate::storage_health::scoring_spec(storage.drives@).len(),
            forall|k: int| 0 <= k < drives@.len() ==> *drives@[k] == crate::storage_health::scoring_spec(storage.drives@)[k],
            forall|k: int| 0 <= k < i ==> (#[trigger] crate::storage_health::scoring_spec(storage.drives@)[k]).predicts_failure != Some(true),
        decreases drives.len() - i,
    {
        if drives[i].predicts_failure == Some(true) {
            assert(crate::storage_health::scoring_spec(storage.drives@)[i as int].predicts_failure == Some(true));
            return true;
        }
        i += 1;
    }
    false
}

/// What the storage workloads report when a drive predicts failure.
pub const STORAGE_BLOCKED: &'static str = "Storage workloads were not started because firmware reports a predicted failure.";

/// The limits for the clock sample: eight seconds, 4 KiB of stdout, 2 KiB
/// of stderr, polled every 10 ms.
pub fn clock_limits() -> (l: crate::collector_runtime::CollectorLimits)
    ensures
        l.timeout_spec() == 8000,
        l.max_stdout_spec() == 4096,
        l.max_stderr_spec() == 2048,
        l.poll_interval_spec() == 10,
        l.valid(),
{
    crate::collector_runtime::CollectorLimits::new(8000, 4096, 2048, 10)
}

/// `bytes` in MiB to one decimal place, rounded half to even.
pub open spec fn mib_tenths_text(bytes: u64) -> Seq<char> {
    let t = crate::customer_fields::round_even(bytes as nat * 10, 1048576);
    dec(t / 10) + "."@ + dec(t % 10)
}

/// What the memory spot check reports for a region of `bytes_tested`.
pub open spec fn memory_status_text(passed: bool, bytes_tested: u64) -> Seq<char> {
    if passed {
        "Memory pattern spot check passed on "@ + mib_tenths_text(bytes_tested)
            + " MiB. This is not full-coverage memory testing; kernel-resident memory was not included."@
    } else {
        "Memory pattern spot check failed: the tested region did not match the pattern that was written."@
    }
}

pub fn memory_status(passed: bool, bytes_tested: u64) -> (s: String)
    ensures
        s@ == memory_status_text(passed, bytes_tested),
{
    if !passed {
        return owned(
            "Memory pattern spot check failed: the tested region did not match the pattern that was written.",
        );
    }
    let n: u128 = bytes_tested as u128 * 10;
    let q = n / 1048576;
    let r = n % 1048576;
    let t: u128 = if 2 * r > 1048576 || (2 * r == 1048576 && q % 2 == 1) {
        q + 1
    } else {
        q
    };
    assert(t == crate::customer_fields::round_even(bytes_tested as nat * 10, 1048576));
    assert(t <= 0xffff_ffff_ffff_ffff_ffff) by (nonlinear_arith)
        requires
            t <= q + 1,
            q == n / 1048576,
            n == bytes_tested as u128 * 10,
            bytes_tested <= 0xffff_ffff_ffff_ffff,
    ;
    let whole = (t / 10) as u64;
    let tenth = (t % 10) as u64;
    let mut v: Vec<char> = Vec::new();
    crate::text::append_str(&mut v, "Memory pattern spot check passed on ");
    push_dec(&mut v, whole);
    crate::text::append_str(&mut v, ".");
    push_dec(&mut v, tenth);
    crate::text::append_str(
        &mut v,
        " MiB. This is not full-coverage memory testing; kernel-resident memory was not included.",
    );
    crate::text::string_of(&v)
}

} // verus!
