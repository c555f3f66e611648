//! Mode S sanitisation planning, helper hand-off decisions, and independent
//! verify. Reading the live volumes, running the elevated helper and reading
//! the disk back are the caller's; every decision between them is here.

use vstd::prelude::*;
use vstd::utf8::encode_utf8;
use crate::report_signing::{hex_lower, sha256_digest, sha256_hex};
use crate::text::{append_all, append_str, chars_of, owned, string_of, trim, trim_vec};
use crate::numtext::{dec, push_dec};

pub mod media;
pub mod plan;
pub mod verify;
pub mod execute;
pub mod protocol;

pub use media::{MediaClass, MethodClass};
pub use plan::{
    erase_confirmed, hostname_matches, hostname_matches_spec, plan_targets, planned_for, DiskHint,
    PlannedTarget, VolumeHint,
};
pub use verify::VerifyReport;
pub use execute::HelperResult;

verus! {

#[derive(Debug, Clone)]
pub struct PurgeRequest {
    pub purge_licence_bound: bool,
    pub hostname: String,
    pub hostname_typed: String,
    pub erase_typed: String,
    pub letters: Vec<String>,
    pub usb_opt_in: bool,
    pub operator_name: String,
    pub preview_only: bool,
}

#[derive(Debug, Clone)]
pub struct PurgeTargetOutcome {
    pub letter: String,
    pub allowed: bool,
    pub media_label: String,
    pub method_label: String,
    pub standard: String,
    pub model: String,
    pub serial: String,
    pub bus: String,
    pub size_bytes: u64,
    pub refuse_reason: Option<String>,
    pub helper_ok: bool,
    pub verify_passed: bool,
    pub verify_note: String,
    pub sample_percent: u32,
}

#[derive(Debug, Clone)]
pub struct PurgeOutcome {
    pub ok: bool,
    pub job_id: String,
    pub status: String,
    pub message: String,
    pub report_allowed: bool,
    pub data_erased: bool,
    pub evidence_hash: String,
    pub targets: Vec<PurgeTargetOutcome>,
}

/// Nothing was erased and nothing may be reported.
pub open spec fn claims_nothing(o: PurgeOutcome) -> bool {
    !o.ok && !o.report_allowed && !o.data_erased
}

/// A failed run: nothing erased, no report, no targets.
pub open spec fn is_failure(o: PurgeOutcome, message: Seq<char>) -> bool {
    &&& claims_nothing(o)
    &&& o.job_id@.len() == 0
    &&& o.status@ == "FAILED"@
    &&& o.message@ == message
    &&& o.evidence_hash@ == "none"@
    &&& o.targets@.len() == 0
}

fn failed(message: &str) -> (o: PurgeOutcome)
    ensures
        is_failure(o, message@),
{
    PurgeOutcome {
        ok: false,
        job_id: String::new(),
        status: owned("FAILED"),
        message: owned(message),
        report_allowed: false,
        data_erased: false,
        evidence_hash: owned("none"),
        targets: Vec::new(),
    }
}

/// Why Mode S stops before any volume is looked at, in the order checked: no
/// bound Purge licence, nothing selected, and (unless only previewing) the
/// PC name or `ERASE` not typed.
pub open spec fn consent_refusal(r: PurgeRequest) -> Option<Seq<char>> {
    if !r.purge_licence_bound {
        Some("Purge licence is not bound on this PC. The helper was not started."@)
    } else if r.letters@.len() == 0 {
        Some("Select extra disks for Mode S. The Windows system disk is never included."@)
    } else if !r.preview_only && !hostname_matches_spec(r.hostname@, r.hostname_typed@) {
        Some("Type this PC’s name exactly to confirm you have the right computer."@)
    } else if !r.preview_only && trim(r.erase_typed@) != "ERASE"@ {
        Some("Type ERASE in capital letters to confirm permanent destruction."@)
    } else {
        None
    }
}

/// The failed outcome when the request lacks a licence, a selection or its
/// consent tokens; none when Mode S may go on to identify the media.
pub fn consent_gate(request: &PurgeRequest) -> (r: Option<PurgeOutcome>)
    ensures
        match r {
            Some(o) => consent_refusal(*request) is Some && is_failure(
                o,
                consent_refusal(*request).unwrap(),
            ),
            None => consent_refusal(*request) is None,
        },
{
    if !request.purge_licence_bound {
        return Some(failed("Purge licence is not bound on this PC. The helper was not started."));
    }
    if request.letters.len() == 0 {
        return Some(
            failed("Select extra disks for Mode S. The Windows system disk is never included."),
        );
    }
    if !request.preview_only {
        if !hostname_matches(request.hostname.as_str(), request.hostname_typed.as_str()) {
            return Some(
                failed("Type this PC’s name exactly to confirm you have the right computer."),
            );
        }
        if !erase_confirmed(request.erase_typed.as_str()) {
            return Some(failed("Type ERASE in capital letters to confirm permanent destruction."));
        }
    }
    None
}

/// `o` reports `t` with the given helper and verify results and note.
pub open spec fn reports_target(
    o: PurgeTargetOutcome,
    t: PlannedTarget,
    helper_ok: bool,
    verify_passed: bool,
    note: Seq<char>,
) -> bool {
    &&& o.letter@ == t.letter@
    &&& o.allowed == t.allowed
    &&& o.media_label@ == t.media_class.label()
    &&& o.method_label@ == t.method.label()
    &&& o.standard@ == t.method.standard_text()
    &&& o.model@ == t.model@
    &&& o.serial@ == t.serial@
    &&& o.bus@ == t.bus@
    &&& o.size_bytes == t.size_bytes
    &&& o.refuse_reason == t.refuse_reason
    &&& o.helper_ok == helper_ok
    &&& o.verify_passed == verify_passed
    &&& o.verify_note@ == note
    &&& o.sample_percent == (if verify_passed {
        10u32
    } else {
        0u32
    })
}

pub fn target_from_plan(
    target: &PlannedTarget,
    helper_ok: bool,
    verify_passed: bool,
    note: &str,
) -> (o: PurgeTargetOutcome)
    ensures
        reports_target(o, *target, helper_ok, verify_passed, note@),
{
    PurgeTargetOutcome {
        letter: target.letter.clone(),
        allowed: target.allowed,
        media_label: owned(target.media_class.as_label()),
        method_label: owned(target.method.as_label()),
        standard: owned(target.method.standard()),
        model: target.model.clone(),
        serial: target.serial.clone(),
        bus: target.bus.clone(),
        size_bytes: target.size_bytes,
        refuse_reason: match &target.refuse_reason {
            Some(r) => Some(r.clone()),
            None => None,
        },
        helper_ok,
        verify_passed,
        verify_note: owned(note),
        sample_percent: if verify_passed {
            10
        } else {
            0
        },
    }
}

fn report_all(planned: &Vec<PlannedTarget>, note: &str) -> (out: Vec<PurgeTargetOutcome>)
    ensures
        out@.len() == planned@.len(),
        forall|i: int|
            0 <= i < out@.len() ==> reports_target(
                #[trigger] out@[i],
                planned@[i],
                false,
                false,
                note@,
            ),
{
    let mut out: Vec<PurgeTargetOutcome> = Vec::new();
    let mut i: usize = 0;
    while i < planned.len()
        invariant
            i <= planned@.len(),
            out@.len() == i,
            forall|k: int|
                0 <= k < i ==> reports_target(#[trigger] out@[k], planned@[k], false, false, note@),
        decreases planned.len() - i,
    {
        out.push(target_from_plan(&planned[i], false, false, note));
        i += 1;
    }
    out
}

/// The note for a refused target: its own reason.
pub open spec fn refused_note(t: PlannedTarget) -> Seq<char> {
    match t.refuse_reason {
        Some(r) => r@,
        None => "Refused."@,
    }
}

/// The first refusal reason among the planned targets.
pub open spec fn first_reason(planned: Seq<PlannedTarget>) -> Option<Seq<char>>
    decreases planned.len(),
{
    if planned.len() == 0 {
        None
    } else {
        match planned[0].refuse_reason {
            Some(r) => Some(r@),
            None => first_reason(planned.drop_first()),
        }
    }
}

pub open spec fn any_allowed(planned: Seq<PlannedTarget>) -> bool {
    exists|i: int| 0 <= i < planned.len() && (#[trigger] planned[i]).allowed
}

/// What Mode S does once the selected drives are planned.
pub enum ModeSStep {
    /// Stop with this outcome: nothing identified, everything refused, or a
    /// preview.
    Finish(PurgeOutcome),
    /// Hand the allowed targets to the elevated helper, in plan order.
    Proceed(Vec<PlannedTarget>),
}

/// After planning: fail when no drive was identified, report every refusal
/// when nothing is allowed, show the preview when only previewing, else go
/// on with the plan. `job_id` names a refused run.
pub fn after_planning(request: &PurgeRequest, planned: Vec<PlannedTarget>, job_id: String) -> (step: ModeSStep)
    ensures
        match step {
            ModeSStep::Finish(o) => {
                &&& claims_nothing(o) || (o.status@ == "PREVIEW"@ && !o.report_allowed
                    && !o.data_erased)
                &&& planned@.len() == 0 ==> is_failure(o, "No selected volumes could be identified."@)
                &&& planned@.len() > 0 && !any_allowed(planned@) ==> {
                    &&& claims_nothing(o)
                    &&& o.job_id == job_id
                    &&& o.status@ == "FAILED"@
                    &&& o.message@ == (match first_reason(planned@) {
                        Some(r) => r,
                        None => "Mode S refused every selected volume."@,
                    })
                    &&& o.evidence_hash@ == "none"@
                    &&& o.targets@.len() == planned@.len()
                    &&& forall|i: int|
                        0 <= i < planned@.len() ==> reports_target(
                            #[trigger] o.targets@[i],
                            planned@[i],
                            false,
                            false,
                            refused_note(planned@[i]),
                        )
                }
                &&& planned@.len() > 0 && any_allowed(planned@) ==> {
                    &&& request.preview_only
                    &&& o.ok
                    &&& o.job_id@.len() == 0
                    &&& o.status@ == "PREVIEW"@
                    &&& o.message@
                        == "Method preview only. No helper was started. Nothing was erased."@
                    &&& o.evidence_hash@ == "none"@
                    &&& o.targets@.len() == planned@.len()
                    &&& forall|i: int|
                        0 <= i < planned@.len() ==> reports_target(
                            #[trigger] o.targets@[i],
                            planned@[i],
                            false,
                            false,
                            "Preview only. Not issued."@,
                        )
                }
            },
            ModeSStep::Proceed(p) => p@ == planned@ && any_allowed(planned@) && !request.preview_only,
        },
{
    if planned.len() == 0 {
        return ModeSStep::Finish(failed("No selected volumes could be identified."));
    }
    let mut allowed_any = false;
    let mut reason: Option<String> = None;
    let mut i: usize = 0;
    assert(planned@.skip(0) =~= planned@);
    while i < planned.len()
        invariant
            i <= planned@.len(),
            allowed_any == exists|k: int| 0 <= k < i && (#[trigger] planned@[k]).allowed,
            first_reason(planned@) == (match reason {
                Some(r) => Some(r@),
                None => first_reason(planned@.skip(i as int)),
            }),
        decreases planned.len() - i,
    {
        proof {
            assert(planned@.skip(i as int).drop_first() =~= planned@.skip(i + 1));
            assert(planned@.skip(i as int)[0] == planned@[i as int]);
        }
        if planned[i].allowed {
            allowed_any = true;
        }
        if reason.is_none() {
            match &planned[i].refuse_reason {
                Some(r) => {
                    reason = Some(r.clone());
                },
                None => {},
            }
        }
        i += 1;
    }
    if !allowed_any {
        let mut targets: Vec<PurgeTargetOutcome> = Vec::new();
        let mut k: usize = 0;
        while k < planned.len()
            invariant
                k <= planned@.len(),
                targets@.len() == k,
                forall|j: int|
                    0 <= j < k ==> reports_target(
                        #[trigger] targets@[j],
                        planned@[j],
                        false,
                        false,
                        refused_note(planned@[j]),
                    ),
            decreases planned.len() - k,
        {
            let note = match &planned[k].refuse_reason {
                Some(r) => r.as_str(),
                None => "Refused.",
            };
            targets.push(target_from_plan(&planned[k], false, false, note));
            k += 1;
        }
        let message = match reason {
            Some(r) => r,
            None => owned("Mode S refused every selected volume."),
        };
        return ModeSStep::Finish(
            PurgeOutcome {
                ok: false,
                job_id,
                status: owned("FAILED"),
                message,
                report_allowed: false,
                data_erased: false,
                evidence_hash: owned("none"),
                targets,
            },
        );
    }
    if request.preview_only {
        let targets = report_all(&planned, "Preview only. Not issued.");
        return ModeSStep::Finish(
            PurgeOutcome {
                ok: true,
                job_id: String::new(),
                status: owned("PREVIEW"),
                message: owned("Method preview only. No helper was started. Nothing was erased."),
                report_allowed: false,
                data_erased: false,
                evidence_hash: owned("none"),
                targets,
            },
        );
    }
    ModeSStep::Proceed(planned)
}

/// The note kept with a target about what the helper reported.
pub open spec fn helper_note_spec(h: HelperResult) -> Seq<char> {
    h.message@ + ". Job "@ + h.job_id@ + ". Volume "@ + h.letter@ + ". Method "@ + h.method@
        + ". Bytes processed "@ + dec(h.bytes_processed as nat) + "."@
}

pub fn helper_status_note(helper: &HelperResult) -> (note: String)
    ensures
        note@ == helper_note_spec(*helper),
{
    let mut out: Vec<char> = Vec::new();
    append_str(&mut out, helper.message.as_str());
    append_str(&mut out, ". Job ");
    append_str(&mut out, helper.job_id.as_str());
    append_str(&mut out, ". Volume ");
    append_str(&mut out, helper.letter.as_str());
    append_str(&mut out, ". Method ");
    append_str(&mut out, helper.method.as_str());
    append_str(&mut out, ". Bytes processed ");
    push_dec(&mut out, helper.bytes_processed);
    append_str(&mut out, ".");
    assert(out@ =~= helper_note_spec(*helper));
    string_of(&out)
}

/// The helper's result counts only when it reports success for the planned
/// volume (or names no volume).
pub open spec fn helper_succeeded(t: PlannedTarget, h: HelperResult) -> bool {
    (h.letter@.len() == 0 || h.letter@ == t.letter@) && h.ok
}

pub fn helper_accepted(target: &PlannedTarget, helper: &HelperResult) -> (r: bool)
    ensures
        r == helper_succeeded(*target, *helper),
{
    (helper.letter.as_str().is_empty() || helper.letter == target.letter) && helper.ok
}

/// The note written after independent verify: its own note, then the
/// helper's.
pub fn verify_outcome(
    target: &PlannedTarget,
    verify: Result<VerifyReport, String>,
    helper_note: &str,
) -> (o: PurgeTargetOutcome)
    ensures
        match verify {
            Ok(report) => reports_target(
                o,
                *target,
                true,
                report.passed,
                report.note@ + " "@ + helper_note@,
            ),
            Err(message) => reports_target(o, *target, true, false, message@ + " "@ + helper_note@),
        },
{
    let mut note: Vec<char> = Vec::new();
    let passed = match &verify {
        Ok(report) => {
            append_str(&mut note, report.note.as_str());
            report.passed
        },
        Err(message) => {
            append_str(&mut note, message.as_str());
            false
        },
    };
    append_str(&mut note, " ");
    append_str(&mut note, helper_note);
    let text = string_of(&note);
    target_from_plan(target, true, passed, text.as_str())
}

/// The bytes the evidence hash covers: the job id, then for each target its
/// letter, serial, method label and a verify byte.
pub open spec fn evidence_bytes(job_id: Seq<char>, outcomes: Seq<PurgeTargetOutcome>) -> Seq<u8>
    decreases outcomes.len(),
{
    if outcomes.len() == 0 {
        encode_utf8(job_id)
    } else {
        let o = outcomes.last();
        evidence_bytes(job_id, outcomes.drop_last()) + encode_utf8(o.letter@) + encode_utf8(
            o.serial@,
        ) + encode_utf8(o.method_label@) + seq![
            if o.verify_passed {
                1u8
            } else {
                0u8
            },
        ]
    }
}

fn push_bytes(out: &mut Vec<u8>, s: &str)
    ensures
        final(out)@ == old(out)@ + encode_utf8(s@),
{
    let b = s.as_bytes();
    let mut i: usize = 0;
    while i < b.len()
        invariant
            i <= b@.len(),
            b@ == encode_utf8(s@),
            out@ == old(out)@ + b@.take(i as int),
        decreases b.len() - i,
    {
        out.push(b[i]);
        i += 1;
        assert(out@ =~= old(out)@ + b@.take(i as int));
    }
    assert(b@.take(b@.len() as int) =~= b@);
}

/// SHA-256, in lower-case hex, over the job and each target's identity and
/// verify result.
pub fn evidence_hash(job_id: &str, outcomes: &Vec<PurgeTargetOutcome>) -> (h: String)
    ensures
        h@ == hex_lower(sha256_digest(evidence_bytes(job_id@, outcomes@))),
{
    let mut bytes: Vec<u8> = Vec::new();
    push_bytes(&mut bytes, job_id);
    let mut i: usize = 0;
    while i < outcomes.len()
        invariant
            i <= outcomes@.len(),
            bytes@ == evidence_bytes(job_id@, outcomes@.take(i as int)),
        decreases outcomes.len() - i,
    {
        assert(outcomes@.take(i + 1).drop_last() =~= outcomes@.take(i as int));
        let o = &outcomes[i];
        push_bytes(&mut bytes, o.letter.as_str());
        push_bytes(&mut bytes, o.serial.as_str());
        push_bytes(&mut bytes, o.method_label.as_str());
        bytes.push(if o.verify_passed {
            1u8
        } else {
            0u8
        });
        i += 1;
        assert(bytes@ =~= evidence_bytes(job_id@, outcomes@.take(i as int)));
    }
    assert(outcomes@.take(outcomes@.len() as int) =~= outcomes@);
    sha256_hex(&bytes)
}

/// The operator named on a successful report, trimmed, or "not named".
pub open spec fn operator_label(name: Seq<char>) -> Seq<char> {
    if trim(name).len() == 0 {
        "not named"@
    } else {
        trim(name)
    }
}

/// The verdict of a run: a report only when some target passed independent
/// verify and none failed; data counts as erased when any target passed.
pub fn finish_run(
    request: &PurgeRequest,
    job_id: String,
    planned: &Vec<PlannedTarget>,
    outcomes: Vec<PurgeTargetOutcome>,
    any_pass: bool,
    any_fail: bool,
) -> (o: PurgeOutcome)
    ensures
        o.ok == (any_pass && !any_fail),
        o.report_allowed == (any_pass && !any_fail),
        o.data_erased == any_pass,
        o.job_id == job_id,
        o.status@ == (if any_pass && !any_fail {
            "VERIFIED"@
        } else {
            "FAILED"@
        }),
        o.message@ == (if any_pass && !any_fail {
            "Mode S completed on extra disks. Operator "@ + operator_label(request.operator_name@)
                + ". Locally verified on this PC."@
        } else {
            "Mode S FAILED. No Report S. Nothing is claimed as sanitised."@
        }),
        o.evidence_hash@ == hex_lower(sha256_digest(evidence_bytes(job_id@, outcomes@))),
        outcomes@.len() > 0 ==> o.targets@ == outcomes@,
        outcomes@.len() == 0 ==> o.targets@.len() == planned@.len() && forall|i: int|
            0 <= i < planned@.len() ==> reports_target(
                #[trigger] o.targets@[i],
                planned@[i],
                false,
                false,
                "Not issued."@,
            ),
{
    let report_allowed = any_pass && !any_fail;
    let evidence = evidence_hash(job_id.as_str(), &outcomes);
    let message = if report_allowed {
        let name = trim_vec(&chars_of(request.operator_name.as_str()));
        let mut m: Vec<char> = Vec::new();
        append_str(&mut m, "Mode S completed on extra disks. Operator ");
        if name.len() == 0 {
            append_str(&mut m, "not named");
        } else {
            append_all(&mut m, &name);
        }
        append_str(&mut m, ". Locally verified on this PC.");
        string_of(&m)
    } else {
        owned("Mode S FAILED. No Report S. Nothing is claimed as sanitised.")
    };
    let targets = if outcomes.len() == 0 {
        report_all(planned, "Not issued.")
    } else {
        outcomes
    };
    PurgeOutcome {
        ok: report_allowed,
        job_id,
        status: if report_allowed {
            owned("VERIFIED")
        } else {
            owned("FAILED")
        },
        message,
        report_allowed,
        data_erased: any_pass,
        evidence_hash: evidence,
        targets,
    }
}


// ---------------------------------------------------------------------------
// Progress reported while Mode S runs.
// ---------------------------------------------------------------------------

/// The stages Mode S reports to the operator, in order.
#[derive(Debug, Clone, Copy, PartialEq, Eq, Structural)]
pub enum ModeSStage {
    Licence,
    Reidentify,
    Method,
    Consent,
    Helper,
    Verify,
    Finish { report_allowed: bool },
}

/// `(percent, index, stage, detail)` for a stage.
pub open spec fn stage_report(s: ModeSStage) -> (int, int, Seq<char>, Seq<char>) {
    match s {
        ModeSStage::Licence => (
            5,
            1,
            "Checking the Purge licence and consent tokens"@,
            "Mode S will not start without a bound Purge licence, the PC name, and ERASE."@,
        ),
        ModeSStage::Reidentify => (
            18,
            2,
            "Re-identifying selected media"@,
            "Serial, bus and capacity are read again before any method is chosen."@,
        ),
        ModeSStage::Method => (
            30,
            3,
            "Choosing the method from the media class"@,
            "The operator cannot pick a 3-pass overwrite and call it Purge."@,
        ),
        ModeSStage::Consent => (
            42,
            4,
            "Confirming the operator typed the hostname and ERASE"@,
            "Consent tokens already matched. Selected extra disks only."@,
        ),
        ModeSStage::Helper => (
            55,
            5,
            "Handing the signed plan to the elevated helper"@,
            "The desktop is not erasing. The elevated CYVRA Purge helper issues the command."@,
        ),
        ModeSStage::Verify => (
            82,
            7,
            "Independent verification"@,
            "Reading a 10% pseudo-random sample. Looking for leftover user-data patterns."@,
        ),
        ModeSStage::Finish { report_allowed } => if report_allowed {
            (100, 8, "Writing Report S"@, "Independent verify passed. Save Report S. This is not a laboratory certification."@)
        } else {
            (100, 8, "Recording FAIL"@, "No sanitization report is issued on FAIL, cancel, or helper missing."@)
        },
    }
}

/// What the operator is told at a stage.
pub fn stage_progress(s: ModeSStage) -> (r: (u8, u8, &'static str, &'static str))
    ensures
        r.0 as int == stage_report(s).0,
        r.1 as int == stage_report(s).1,
        r.2@ == stage_report(s).2,
        r.3@ == stage_report(s).3,
{
    match s {
        ModeSStage::Licence => (
            5,
            1,
            "Checking the Purge licence and consent tokens",
            "Mode S will not start without a bound Purge licence, the PC name, and ERASE.",
        ),
        ModeSStage::Reidentify => (
            18,
            2,
            "Re-identifying selected media",
            "Serial, bus and capacity are read again before any method is chosen.",
        ),
        ModeSStage::Method => (
            30,
            3,
            "Choosing the method from the media class",
            "The operator cannot pick a 3-pass overwrite and call it Purge.",
        ),
        ModeSStage::Consent => (
            42,
            4,
            "Confirming the operator typed the hostname and ERASE",
            "Consent tokens already matched. Selected extra disks only.",
        ),
        ModeSStage::Helper => (
            55,
            5,
            "Handing the signed plan to the elevated helper",
            "The desktop is not erasing. The elevated CYVRA Purge helper issues the command.",
        ),
        ModeSStage::Verify => (
            82,
            7,
            "Independent verification",
            "Reading a 10% pseudo-random sample. Looking for leftover user-data patterns.",
        ),
        ModeSStage::Finish { report_allowed } => if report_allowed {
            (100, 8, "Writing Report S", "Independent verify passed. Save Report S. This is not a laboratory certification.")
        } else {
            (100, 8, "Recording FAIL", "No sanitization report is issued on FAIL, cancel, or helper missing.")
        },
    }
}

/// While the helper works on one volume: `(70, 6, stage, "Method on L: method.")`.
pub fn controller_progress(letter: &str, method: MethodClass) -> (r: (u8, u8, &'static str, String))
    ensures
        r.0 == 70,
        r.1 == 6,
        r.2@ == "Waiting for the controller"@,
        r.3@ == "Method on "@ + letter@ + ": "@ + method.label() + "."@,
{
    let mut out: Vec<char> = Vec::new();
    append_str(&mut out, "Method on ");
    append_str(&mut out, letter);
    append_str(&mut out, ": ");
    append_str(&mut out, method.as_label());
    append_str(&mut out, ".");
    (70, 6, "Waiting for the controller", string_of(&out))
}

/// How a Mode S run opens: the licence and token stage is reported, and
/// then, when the request lacks a licence, a selection or its consent
/// tokens, the run ends with the refusal before any media is looked at.
pub fn open_mode_s(request: &PurgeRequest) -> (r: (Vec<ModeSStage>, Option<PurgeOutcome>))
    ensures
        r.0@ == seq![ModeSStage::Licence],
        match r.1 {
            Some(o) => consent_refusal(*request) is Some && is_failure(o, consent_refusal(*request).unwrap()),
            None => consent_refusal(*request) is None,
        },
{
    let mut reported: Vec<ModeSStage> = Vec::new();
    reported.push(ModeSStage::Licence);
    (reported, consent_gate(request))
}

} // verus!
