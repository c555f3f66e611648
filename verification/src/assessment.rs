//! The outcome of a local, read-only assessment.

use vstd::prelude::*;

verus! {

#[derive(Debug)]
pub struct AssessmentResult {
    pub scan_mode: &'static str,
    pub status: &'static str,
    pub summary: &'static str,
}

/// The assessment never erases: its mode is non-destructive.
pub fn assess() -> (r: AssessmentResult)
    ensures
        r.scan_mode@ == "non_destructive"@,
        r.status@ == "foundation_ready"@,
        r.summary@ == "CYVRA local assessment completed. No data was erased."@,
{
    AssessmentResult {
        scan_mode: "non_destructive",
        status: "foundation_ready",
        summary: "CYVRA local assessment completed. No data was erased.",
    }
}

} // verus!
