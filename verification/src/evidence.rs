//! When and by what a local assessment was recorded.

use vstd::prelude::*;

verus! {

#[derive(Debug)]
pub struct EvidenceRecord {
    pub collected_at_unix: u64,
    pub source: &'static str,
}

/// The record for an assessment taken at `collected_at_unix` seconds.
pub fn collect(collected_at_unix: u64) -> (r: EvidenceRecord)
    ensures
        r.collected_at_unix == collected_at_unix,
        r.source@ == "cyvoriq-local-agent"@,
{
    EvidenceRecord { collected_at_unix, source: "cyvoriq-local-agent" }
}

} // verus!
