//! Mode S helper hand-off: the plan and result files, and the decisions the
//! elevated helper takes before it touches a volume.

use vstd::prelude::*;
use super::media::{MediaClass, MethodClass};
use super::plan::{opt_view, PlannedTarget};
use crate::numtext::{dec, parse_u64, parse_u64_spec, push_dec};
use crate::text::{
    append_all, append_str, chars_of, contains, contains_str, eq_str, lines, lines_vec, lower_seq,
    lower_vec, owned, split_once, split_once_vec, string_of, views,
};

verus! {

#[derive(Debug, Clone)]
pub struct HelperResult {
    pub job_id: String,
    pub letter: String,
    pub method: String,
    pub ok: bool,
    pub message: String,
    pub bytes_processed: u64,
}

/// The helper refuses USB, removable, optical, network, system and unknown
/// media, whatever the plan asks for; the bus and the live drive kind are
/// checked as well as the planned class.
pub open spec fn helper_refuses(media_class: Seq<char>, bus: Seq<char>, drive_kind: Seq<char>) -> bool {
    let media = lower_seq(media_class);
    let bus_l = lower_seq(bus);
    let kind = lower_seq(drive_kind);
    contains(media, "usb"@) || media == "usb_hdd"@ || media == "usb_flash"@ || contains(bus_l, "usb"@)
        || kind == "removable"@ || kind == "optical"@ || kind == "network"@ || media == "optical"@
        || media == "network"@ || media == "system_disk"@ || media == "unknown"@
}

pub fn helper_must_refuse(media_class: &str, bus: &str, drive_kind: &str) -> (r: bool)
    ensures
        r == helper_refuses(media_class@, bus@, drive_kind@),
{
    let media = lower_vec(&chars_of(media_class));
    let bus_l = lower_vec(&chars_of(bus));
    let kind = lower_vec(&chars_of(drive_kind));
    contains_str(&media, "usb") || eq_str(&media, "usb_hdd") || eq_str(&media, "usb_flash")
        || contains_str(&bus_l, "usb") || eq_str(&kind, "removable") || eq_str(&kind, "optical")
        || eq_str(&kind, "network") || eq_str(&media, "optical") || eq_str(&media, "network")
        || eq_str(&media, "system_disk") || eq_str(&media, "unknown")
}

/// The value of the last `key=value` line for `key`.
pub open spec fn last_value(lines: Seq<Seq<char>>, key: Seq<char>) -> Option<Seq<char>>
    decreases lines.len(),
{
    if lines.len() == 0 {
        None
    } else {
        match split_once(lines.last(), '=') {
            Some((k, v)) => if k == key {
                Some(v)
            } else {
                last_value(lines.drop_last(), key)
            },
            None => last_value(lines.drop_last(), key),
        }
    }
}

pub open spec fn or_empty(o: Option<Seq<char>>) -> Seq<char> {
    match o {
        Some(v) => v,
        None => Seq::<char>::empty(),
    }
}

/// A number field: the parsed value of its last line, else zero.
pub open spec fn number_field(o: Option<Seq<char>>) -> u64 {
    match o {
        Some(v) => match parse_u64_spec(v) {
            Some(n) => n,
            None => 0,
        },
        None => 0,
    }
}

fn last_value_of(lines: &Vec<Vec<char>>, key: &str) -> (r: Option<Vec<char>>)
    ensures
        match r {
            Some(v) => last_value(views(lines@), key@) == Some(v@),
            None => last_value(views(lines@), key@) is None,
        },
{
    let mut found: Option<Vec<char>> = None;
    let mut i: usize = 0;
    while i < lines.len()
        invariant
            i <= lines@.len(),
            match found {
                Some(v) => last_value(views(lines@).take(i as int), key@) == Some(v@),
                None => last_value(views(lines@).take(i as int), key@) is None,
            },
        decreases lines.len() - i,
    {
        let ghost t = views(lines@).take(i + 1);
        assert(t.drop_last() =~= views(lines@).take(i as int));
        assert(t.last() == lines@[i as int]@);
        match split_once_vec(&lines[i], '=') {
            Some((k, v)) => {
                if eq_str(&k, key) {
                    found = Some(v);
                }
            },
            None => {},
        }
        i += 1;
    }
    assert(views(lines@).take(lines@.len() as int) =~= views(lines@));
    found
}

fn or_empty_string(o: Option<Vec<char>>) -> (s: String)
    ensures
        s@ == (match o {
            Some(v) => v@,
            None => Seq::<char>::empty(),
        }),
{
    match o {
        Some(v) => string_of(&v),
        None => String::new(),
    }
}

/// What a helper result file says: the last line for each key wins, `ok` is
/// true only when written as `true`, an unreadable byte count is zero. A
/// result without a job id is not readable.
pub fn parse_result(body: &str) -> (r: Result<HelperResult, String>)
    ensures
        ({
            let ls = lines(body@);
            match r {
                Ok(h) => {
                    &&& or_empty(last_value(ls, "job_id"@)).len() > 0
                    &&& h.job_id@ == or_empty(last_value(ls, "job_id"@))
                    &&& h.letter@ == or_empty(last_value(ls, "letter"@))
                    &&& h.method@ == or_empty(last_value(ls, "method"@))
                    &&& h.ok == (last_value(ls, "ok"@) == Some("true"@))
                    &&& h.message@ == or_empty(last_value(ls, "message"@))
                    &&& h.bytes_processed == number_field(last_value(ls, "bytes_processed"@))
                },
                Err(e) => or_empty(last_value(ls, "job_id"@)).len() == 0
                    && e@ == "Purge helper result was not readable."@,
            }
        }),
{
    let ls = lines_vec(&chars_of(body));
    let job_id = or_empty_string(last_value_of(&ls, "job_id"));
    let letter = or_empty_string(last_value_of(&ls, "letter"));
    let method = or_empty_string(last_value_of(&ls, "method"));
    let ok = match last_value_of(&ls, "ok") {
        Some(v) => eq_str(&v, "true"),
        None => false,
    };
    let message = or_empty_string(last_value_of(&ls, "message"));
    let bytes_processed = match last_value_of(&ls, "bytes_processed") {
        Some(v) => match parse_u64(&v) {
            Some(n) => n,
            None => 0,
        },
        None => 0,
    };
    if job_id.as_str().is_empty() {
        return Err(owned("Purge helper result was not readable."));
    }
    Ok(HelperResult { job_id, letter, method, ok, message, bytes_processed })
}

pub open spec fn method_key_spec(method: MethodClass) -> Seq<char> {
    match method {
        MethodClass::OverwriteClear => "overwrite_clear"@,
        MethodClass::AtaSecureErase => "ata_secure_erase"@,
        MethodClass::NvmeSanitize => "nvme_sanitize"@,
        MethodClass::Refused => "refused"@,
    }
}

/// The method as written into a plan file.
pub fn method_key(method: MethodClass) -> (s: &'static str)
    ensures
        s@ == method_key_spec(method),
{
    match method {
        MethodClass::OverwriteClear => "overwrite_clear",
        MethodClass::AtaSecureErase => "ata_secure_erase",
        MethodClass::NvmeSanitize => "nvme_sanitize",
        MethodClass::Refused => "refused",
    }
}

/// Line breaks replaced by spaces, so a value stays on its line.
pub open spec fn one_line(s: Seq<char>) -> Seq<char> {
    s.map_values(|c: char| if c == '\n' { ' ' } else { c })
}

fn push_one_line(out: &mut Vec<char>, s: &str)
    ensures
        final(out)@ == old(out)@ + one_line(s@),
{
    let v = chars_of(s);
    let mut i: usize = 0;
    while i < v.len()
        invariant
            i <= v@.len(),
            v@ == s@,
            out@ == old(out)@ + one_line(v@.take(i as int)),
        decreases v.len() - i,
    {
        if v[i] == '\n' {
            out.push(' ');
        } else {
            out.push(v[i]);
        }
        i += 1;
        assert(one_line(v@.take(i as int)) =~= one_line(v@.take(i - 1)).push(
            if v@[i - 1] == '\n' {
                ' '
            } else {
                v@[i - 1]
            },
        ));
    }
    assert(v@.take(v@.len() as int) =~= v@);
}

/// The text of a helper plan file.
pub open spec fn plan_body_spec(job_id: Seq<char>, t: PlannedTarget) -> Seq<char> {
    "job_id="@ + job_id + "\nletter="@ + t.letter@ + "\ndisk_index="@ + dec(t.disk_index as nat)
        + "\nmethod="@ + method_key_spec(t.method) + "\nsize_bytes="@ + dec(t.size_bytes as nat)
        + "\nserial="@ + one_line(t.serial@) + "\nmodel="@ + one_line(t.model@) + "\nmedia_class="@
        + t.media_class.key() + "\nbus="@ + one_line(t.bus@) + "\n"@
}

/// The plan file the elevated helper is given, or why none may be written:
/// USB and other refused media first, then any target the plan did not
/// allow.
pub fn plan_file_body(job_id: &str, target: &PlannedTarget) -> (r: Result<String, String>)
    ensures
        match r {
            Ok(body) => !helper_refuses(target.media_class.key(), target.bus@, Seq::<char>::empty())
                && target.allowed && target.method != MethodClass::Refused && body@
                == plan_body_spec(job_id@, *target),
            Err(e) => if helper_refuses(
                target.media_class.key(),
                target.bus@,
                Seq::<char>::empty(),
            ) {
                e@ == "Attached USB or removable media cannot be sanitised by this application."@
            } else {
                (!target.allowed || target.method == MethodClass::Refused) && e@ == (match opt_view(
                    target.refuse_reason,
                ) {
                    Some(reason) => reason,
                    None => "Mode S refused this volume."@,
                })
            },
        },
{
    proof {
        reveal_strlit("");
        assert(""@ =~= Seq::<char>::empty());
    }
    if helper_must_refuse(target.media_class.as_key(), target.bus.as_str(), "") {
        return Err(
            owned("Attached USB or removable media cannot be sanitised by this application."),
        );
    }
    if !target.allowed || target.method == MethodClass::Refused {
        return Err(
            match &target.refuse_reason {
                Some(reason) => reason.clone(),
                None => owned("Mode S refused this volume."),
            },
        );
    }
    let mut out: Vec<char> = Vec::new();
    append_str(&mut out, "job_id=");
    append_str(&mut out, job_id);
    append_str(&mut out, "\nletter=");
    append_str(&mut out, target.letter.as_str());
    append_str(&mut out, "\ndisk_index=");
    push_dec(&mut out, target.disk_index as u64);
    append_str(&mut out, "\nmethod=");
    append_str(&mut out, method_key(target.method));
    append_str(&mut out, "\nsize_bytes=");
    push_dec(&mut out, target.size_bytes);
    append_str(&mut out, "\nserial=");
    push_one_line(&mut out, target.serial.as_str());
    append_str(&mut out, "\nmodel=");
    push_one_line(&mut out, target.model.as_str());
    append_str(&mut out, "\nmedia_class=");
    append_str(&mut out, target.media_class.as_key());
    append_str(&mut out, "\nbus=");
    push_one_line(&mut out, target.bus.as_str());
    append_str(&mut out, "\n");
    assert(out@ =~= plan_body_spec(job_id@, *target));
    Ok(string_of(&out))
}

/// The text of a helper result file.
pub open spec fn result_body_spec(
    job_id: Seq<char>,
    letter: Seq<char>,
    method: Seq<char>,
    ok: bool,
    message: Seq<char>,
    bytes: u64,
) -> Seq<char> {
    "job_id="@ + job_id + "\nletter="@ + letter + "\nmethod="@ + method + "\nok="@ + (if ok {
        "true"@
    } else {
        "false"@
    }) + "\nmessage="@ + message + "\nbytes_processed="@ + dec(bytes as nat) + "\n"@
}

/// A helper result file.
pub fn result_body(
    job_id: &str,
    letter: &str,
    method: &str,
    ok: bool,
    message: &str,
    bytes_processed: u64,
) -> (body: String)
    ensures
        body@ == result_body_spec(job_id@, letter@, method@, ok, message@, bytes_processed),
{
    let mut out: Vec<char> = Vec::new();
    append_str(&mut out, "job_id=");
    append_str(&mut out, job_id);
    append_str(&mut out, "\nletter=");
    append_str(&mut out, letter);
    append_str(&mut out, "\nmethod=");
    append_str(&mut out, method);
    append_str(&mut out, "\nok=");
    if ok {
        append_str(&mut out, "true");
    } else {
        append_str(&mut out, "false");
    }
    append_str(&mut out, "\nmessage=");
    append_str(&mut out, message);
    append_str(&mut out, "\nbytes_processed=");
    push_dec(&mut out, bytes_processed);
    append_str(&mut out, "\n");
    assert(out@ =~= result_body_spec(job_id@, letter@, method@, ok, message@, bytes_processed));
    string_of(&out)
}

/// The fields of a helper plan file the helper acts on.
#[derive(Debug, Clone)]
pub struct HelperPlan {
    pub job_id: String,
    pub letter: String,
    pub method: String,
    pub size_bytes: u64,
    pub media_class: String,
    pub bus: String,
}

/// A plan file read the same way as a result file: last line per key wins,
/// an unreadable size is zero.
pub fn parse_plan(body: &str) -> (p: HelperPlan)
    ensures
        ({
            let ls = lines(body@);
            &&& p.job_id@ == or_empty(last_value(ls, "job_id"@))
            &&& p.letter@ == or_empty(last_value(ls, "letter"@))
            &&& p.method@ == or_empty(last_value(ls, "method"@))
            &&& p.size_bytes == number_field(last_value(ls, "size_bytes"@))
            &&& p.media_class@ == or_empty(last_value(ls, "media_class"@))
            &&& p.bus@ == or_empty(last_value(ls, "bus"@))
        }),
{
    let ls = lines_vec(&chars_of(body));
    let size_bytes = match last_value_of(&ls, "size_bytes") {
        Some(v) => match parse_u64(&v) {
            Some(n) => n,
            None => 0,
        },
        None => 0,
    };
    HelperPlan {
        job_id: or_empty_string(last_value_of(&ls, "job_id")),
        letter: or_empty_string(last_value_of(&ls, "letter")),
        method: or_empty_string(last_value_of(&ls, "method")),
        size_bytes,
        media_class: or_empty_string(last_value_of(&ls, "media_class")),
        bus: or_empty_string(last_value_of(&ls, "bus")),
    }
}

/// What the helper does with a plan it was handed.
#[derive(Debug, Clone, Copy, PartialEq, Eq, Structural)]
pub enum HelperStep {
    /// A firmware method was asked for; the helper records that it is not
    /// available and stops without touching the volume.
    FirmwareUnavailable,
    /// A single-pass overwrite of the planned volume.
    Overwrite,
}

pub open spec fn helper_step_spec(plan: HelperPlan, live_kind: Seq<char>) -> Result<HelperStep, Seq<char>> {
    if plan.letter@.len() == 0 || plan.job_id@.len() == 0 {
        Err("Purge plan is incomplete."@)
    } else if helper_refuses(plan.media_class@, plan.bus@, live_kind) {
        Err("Attached USB or removable media cannot be sanitised by this application."@)
    } else if plan.method@ == "ata_secure_erase"@ || plan.method@ == "nvme_sanitize"@ {
        Ok(HelperStep::FirmwareUnavailable)
    } else if plan.method@ != "overwrite_clear"@ {
        Err("Purge helper refused an unknown method."@)
    } else {
        Ok(HelperStep::Overwrite)
    }
}

/// The helper's decision on a plan, given the drive kind Windows reports
/// for the planned letter right now.
pub fn helper_step(plan: &HelperPlan, live_kind: &str) -> (r: Result<HelperStep, String>)
    ensures
        match r {
            Ok(step) => helper_step_spec(*plan, live_kind@) == Ok::<HelperStep, Seq<char>>(step),
            Err(e) => helper_step_spec(*plan, live_kind@) == Err::<HelperStep, Seq<char>>(e@),
        },
{
    if plan.letter.as_str().is_empty() || plan.job_id.as_str().is_empty() {
        return Err(owned("Purge plan is incomplete."));
    }
    if helper_must_refuse(plan.media_class.as_str(), plan.bus.as_str(), live_kind) {
        return Err(
            owned("Attached USB or removable media cannot be sanitised by this application."),
        );
    }
    let method = chars_of(plan.method.as_str());
    if eq_str(&method, "ata_secure_erase") || eq_str(&method, "nvme_sanitize") {
        return Ok(HelperStep::FirmwareUnavailable);
    }
    if !eq_str(&method, "overwrite_clear") {
        return Err(owned("Purge helper refused an unknown method."));
    }
    Ok(HelperStep::Overwrite)
}

/// A plan that reaches the overwrite step never names refused media.
pub proof fn helper_never_overwrites_refused_media(plan: HelperPlan, live_kind: Seq<char>)
    requires
        helper_step_spec(plan, live_kind) is Ok,
    ensures
        !helper_refuses(plan.media_class@, plan.bus@, live_kind),
        plan.letter@.len() > 0,
{
}

} // verus!
