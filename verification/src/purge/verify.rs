//! Independent read-back. The sanitizer process must not certify itself.

use vstd::prelude::*;
use crate::text::owned;

verus! {

/// The test pattern written before a sanitisation run: `CYVRA-TEST`.
pub const MARKER: [u8; 10] = [67u8, 89u8, 86u8, 82u8, 65u8, 45u8, 84u8, 69u8, 83u8, 84u8];

#[derive(Debug, Clone, PartialEq, Eq)]
pub struct VerifyReport {
    pub passed: bool,
    pub sample_percent: u32,
    pub samples_read: u32,
    pub marker_hits: u32,
    pub note: String,
}

pub open spec fn marker_seq() -> Seq<u8> {
    seq![67u8, 89u8, 86u8, 82u8, 65u8, 45u8, 84u8, 69u8, 83u8, 84u8]
}

/// The marker occurs somewhere in the buffer.
pub open spec fn has_marker(buffer: Seq<u8>) -> bool {
    exists|i: int|
        0 <= i && i + 10 <= buffer.len() && #[trigger] buffer.subrange(i, i + 10) == marker_seq()
}

pub open spec fn is_alnum_byte(b: u8) -> bool {
    (48 <= b && b <= 57) || (65 <= b && b <= 90) || (97 <= b && b <= 122)
}

/// How many bytes satisfy a test.
pub open spec fn count_bytes(buffer: Seq<u8>, test: spec_fn(u8) -> bool) -> nat
    decreases buffer.len(),
{
    if buffer.len() == 0 {
        0
    } else {
        count_bytes(buffer.drop_last(), test) + (if test(buffer.last()) {
            1nat
        } else {
            0nat
        })
    }
}

/// How many of the byte values below `n` occur in the buffer.
pub open spec fn present_values(buffer: Seq<u8>, n: nat) -> nat
    decreases n,
{
    if n == 0 {
        0
    } else {
        present_values(buffer, (n - 1) as nat) + (if buffer.contains((n - 1) as u8) {
            1nat
        } else {
            0nat
        })
    }
}

/// Enough distinct byte values to pass for ciphertext or random fill.
pub open spec fn looks_random_spec(buffer: Seq<u8>) -> bool {
    buffer.len() >= 64 && present_values(buffer, 256) > 64
}

/// A sample is clean: not empty, no marker, and mostly zeros, mostly ones,
/// or random-looking.
pub open spec fn residue_ok_spec(buffer: Seq<u8>) -> bool {
    &&& buffer.len() > 0
    &&& !has_marker(buffer)
    &&& (count_bytes(buffer, |b: u8| b == 0) * 2 > buffer.len() || count_bytes(
        buffer,
        |b: u8| b == 0xFF,
    ) * 2 > buffer.len() || looks_random_spec(buffer))
}

/// The byte values a buffer holds.
pub open spec fn byte_values(buffer: Seq<u8>) -> Set<u8> {
    Set::new(|v: u8| buffer.contains(v))
}

proof fn lemma_present_values_counts(buffer: Seq<u8>, n: nat)
    requires
        n <= 256,
    ensures
        Set::new(|v: u8| (v as nat) < n && buffer.contains(v)).finite(),
        Set::new(|v: u8| (v as nat) < n && buffer.contains(v)).len() == present_values(buffer, n),
    decreases n,
{
    let cur = Set::new(|v: u8| (v as nat) < n && buffer.contains(v));
    if n == 0 {
        assert(cur =~= Set::<u8>::empty());
    } else {
        let m = (n - 1) as nat;
        lemma_present_values_counts(buffer, m);
        let prev = Set::new(|v: u8| (v as nat) < m && buffer.contains(v));
        let b = m as u8;
        assert(b as nat == m);
        if buffer.contains(b) {
            assert(cur =~= prev.insert(b));
            assert(!prev.contains(b));
        } else {
            assert(cur =~= prev);
        }
    }
}

/// A read-back sample that holds no test marker and, over at least 64
/// bytes, more than 64 different byte values (ciphertext or random fill
/// left by a cryptographic erase) is clean, whatever share of it is zero
/// or 0xFF. An empty sample or one holding the marker never is.
pub proof fn random_residue_is_clean(buffer: Seq<u8>)
    ensures
        buffer.len() >= 64 && !has_marker(buffer) && byte_values(buffer).len() > 64 ==> residue_ok_spec(buffer),
        buffer.len() == 0 || has_marker(buffer) ==> !residue_ok_spec(buffer),
        byte_values(buffer).finite(),
{
    lemma_present_values_counts(buffer, 256);
    assert(byte_values(buffer) =~= Set::new(|v: u8| (v as nat) < 256 && buffer.contains(v)));
}

fn marker_at(buffer: &[u8], i: usize) -> (r: bool)
    requires
        i + 10 <= buffer@.len(),
    ensures
        r == (buffer@.subrange(i as int, i + 10) == marker_seq()),
{
    let mut k: usize = 0;
    while k < 10
        invariant
            k <= 10,
            i + 10 <= buffer@.len(),
            forall|j: int| 0 <= j < k ==> buffer@[i + j] == marker_seq()[j],
        decreases 10 - k,
    {
        let n = buffer.len();
        assert(i + k < n);
        let at: usize = i + k;
        if buffer[at] != MARKER[k] {
            assert(buffer@.subrange(i as int, i + 10)[k as int] != marker_seq()[k as int]);
            return false;
        }
        k += 1;
    }
    assert(buffer@.subrange(i as int, i + 10) =~= marker_seq());
    true
}

fn find_marker(buffer: &[u8]) -> (r: bool)
    ensures
        r == has_marker(buffer@),
{
    if buffer.len() < 10 {
        return false;
    }
    let mut i: usize = 0;
    while i <= buffer.len() - 10
        invariant
            buffer@.len() >= 10,
            i <= buffer@.len() - 9,
            forall|j: int| 0 <= j < i ==> #[trigger] buffer@.subrange(j, j + 10) != marker_seq(),
        decreases buffer.len() - i,
    {
        if marker_at(buffer, i) {
            return true;
        }
        i += 1;
    }
    false
}

fn count_alnum(buffer: &[u8]) -> (n: usize)
    ensures
        n == count_bytes(buffer@, |b: u8| is_alnum_byte(b)),
{
    let mut n: usize = 0;
    let mut i: usize = 0;
    while i < buffer.len()
        invariant
            i <= buffer@.len(),
            n <= i,
            n == count_bytes(buffer@.take(i as int), |b: u8| is_alnum_byte(b)),
        decreases buffer.len() - i,
    {
        assert(buffer@.take(i + 1).drop_last() =~= buffer@.take(i as int));
        let b = buffer[i];
        if (48 <= b && b <= 57) || (65 <= b && b <= 90) || (97 <= b && b <= 122) {
            n += 1;
        }
        i += 1;
    }
    assert(buffer@.take(buffer@.len() as int) =~= buffer@);
    n
}

fn count_value(buffer: &[u8], v: u8) -> (n: usize)
    ensures
        n == count_bytes(buffer@, |b: u8| b == v),
        n <= buffer@.len(),
{
    let mut n: usize = 0;
    let mut i: usize = 0;
    while i < buffer.len()
        invariant
            i <= buffer@.len(),
            n <= i,
            n == count_bytes(buffer@.take(i as int), |b: u8| b == v),
        decreases buffer.len() - i,
    {
        assert(buffer@.take(i + 1).drop_last() =~= buffer@.take(i as int));
        if buffer[i] == v {
            n += 1;
        }
        i += 1;
    }
    assert(buffer@.take(buffer@.len() as int) =~= buffer@);
    n
}

/// Marker hits (0 or 1) in a sample, and whether the sample still looks
/// like user text: more than a quarter ASCII letters and digits, with the
/// marker present.
pub fn inspect_buffer(buffer: &[u8]) -> (r: (u32, bool))
    ensures
        r.0 == (if has_marker(buffer@) {
            1u32
        } else {
            0u32
        }),
        r.1 == (count_bytes(buffer@, |b: u8| is_alnum_byte(b)) > buffer@.len() / 4 && has_marker(
            buffer@,
        )),
{
    let mut hits: u32 = 0;
    if find_marker(buffer) {
        hits = 1;
    }
    let looks_user_text = count_alnum(buffer) > buffer.len() / 4 && hits > 0;
    (hits, looks_user_text)
}

fn looks_random(buffer: &[u8]) -> (r: bool)
    ensures
        r == looks_random_spec(buffer@),
{
    if buffer.len() < 64 {
        return false;
    }
    let mut seen: Vec<bool> = Vec::new();
    let mut v: usize = 0;
    while v < 256
        invariant
            v <= 256,
            seen@.len() == v,
            forall|k: int| 0 <= k < v ==> !seen@[k],
        decreases 256 - v,
    {
        seen.push(false);
        v += 1;
    }
    let mut i: usize = 0;
    while i < buffer.len()
        invariant
            i <= buffer@.len(),
            seen@.len() == 256,
            forall|k: int| 0 <= k < 256 ==> seen@[k] == buffer@.take(i as int).contains(k as u8),
        decreases buffer.len() - i,
    {
        let b = buffer[i];
        seen.set(b as usize, true);
        proof {
            let t = buffer@.take(i + 1);
            assert(t =~= buffer@.take(i as int).push(b));
            assert forall|k: int| 0 <= k < 256 implies seen@[k] == t.contains(k as u8) by {
                if k == b as int {
                    assert(t[i as int] == b);
                } else {
                    if t.contains(k as u8) {
                        let j = choose|j: int| 0 <= j < t.len() && t[j] == k as u8;
                        assert(buffer@.take(i as int)[j] == k as u8);
                    }
                    if buffer@.take(i as int).contains(k as u8) {
                        let j = choose|j: int|
                            0 <= j < i && buffer@.take(i as int)[j] == k as u8;
                        assert(t[j] == k as u8);
                    }
                }
            }
        }
        i += 1;
    }
    assert(buffer@.take(buffer@.len() as int) =~= buffer@);
    let mut distinct: usize = 0;
    let mut v: usize = 0;
    while v < 256
        invariant
            v <= 256,
            seen@.len() == 256,
            distinct <= v,
            forall|k: int| 0 <= k < 256 ==> seen@[k] == buffer@.contains(k as u8),
            distinct == present_values(buffer@, v as nat),
        decreases 256 - v,
    {
        if seen[v] {
            distinct += 1;
        }
        v += 1;
    }
    distinct > 64
}

/// Whether a read-back sample is clean.
pub fn residue_ok(buffer: &[u8]) -> (r: bool)
    ensures
        r == residue_ok_spec(buffer@),
{
    if buffer.len() == 0 {
        return false;
    }
    let (hits, _) = inspect_buffer(buffer);
    if hits > 0 {
        return false;
    }
    let zeros = count_value(buffer, 0);
    let ones = count_value(buffer, 0xFF);
    zeros > buffer.len() / 2 || ones > buffer.len() / 2 || looks_random(buffer)
}

pub open spec fn sum_hits(samples: Seq<(u32, bool)>) -> nat
    decreases samples.len(),
{
    if samples.len() == 0 {
        0
    } else {
        sum_hits(samples.drop_last()) + samples.last().0 as nat
    }
}

/// Verify passes when at least one sample was read, no sample held the
/// marker, and every sample was clean.
pub open spec fn verify_passed(samples: Seq<(u32, bool)>) -> bool {
    samples.len() > 0 && sum_hits(samples) == 0 && forall|i: int|
        0 <= i < samples.len() ==> (#[trigger] samples[i]).1
}

pub open spec fn verify_note(samples: Seq<(u32, bool)>) -> Seq<char> {
    if verify_passed(samples) {
        "Independent 10% sample found no CYVRA-TEST marker and no leftover user-data pattern."@
    } else if sum_hits(samples) > 0 {
        "Independent verify FAIL: CYVRA-TEST marker still present."@
    } else {
        "Independent verify FAIL: residue did not match zeros, ones, or ciphertext."@
    }
}

/// The verdict over `(marker hits, clean)` samples.
pub fn summarise(samples: &[(u32, bool)]) -> (report: VerifyReport)
    requires
        samples@.len() <= u32::MAX,
        sum_hits(samples@) <= u32::MAX,
    ensures
        report.passed == verify_passed(samples@),
        report.sample_percent == 10,
        report.samples_read == samples@.len(),
        report.marker_hits == sum_hits(samples@),
        report.note@ == verify_note(samples@),
{
    let samples_read = samples.len() as u32;
    let mut marker_hits: u32 = 0;
    let mut all_ok = true;
    let mut i: usize = 0;
    while i < samples.len()
        invariant
            i <= samples@.len(),
            sum_hits(samples@) <= u32::MAX,
            marker_hits == sum_hits(samples@.take(i as int)),
            all_ok == forall|k: int| 0 <= k < i ==> (#[trigger] samples@[k]).1,
        decreases samples.len() - i,
    {
        proof {
            assert(samples@.take(i + 1).drop_last() =~= samples@.take(i as int));
            lemma_sum_hits_prefix(samples@, i + 1);
        }
        let (hits, ok) = samples[i];
        marker_hits = marker_hits + hits;
        all_ok = all_ok && ok;
        i += 1;
    }
    assert(samples@.take(samples@.len() as int) =~= samples@);
    let passed = samples_read > 0 && marker_hits == 0 && all_ok;
    let note = if passed {
        owned(
            "Independent 10% sample found no CYVRA-TEST marker and no leftover user-data pattern.",
        )
    } else if marker_hits > 0 {
        owned("Independent verify FAIL: CYVRA-TEST marker still present.")
    } else {
        owned("Independent verify FAIL: residue did not match zeros, ones, or ciphertext.")
    };
    VerifyReport { passed, sample_percent: 10, samples_read, marker_hits, note }
}

proof fn lemma_sum_hits_prefix(samples: Seq<(u32, bool)>, n: int)
    requires
        0 <= n <= samples.len(),
    ensures
        sum_hits(samples.take(n)) <= sum_hits(samples),
    decreases samples.len() - n,
{
    if n < samples.len() {
        lemma_sum_hits_prefix(samples, n + 1);
        assert(samples.take(n + 1).drop_last() =~= samples.take(n));
    } else {
        assert(samples.take(n) =~= samples);
    }
}

} // verus!
