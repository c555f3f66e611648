//! The Report D telemetry groups: what each probe read, row by row, and
//! what it could not read, said plainly. Nothing is inferred.

use vstd::prelude::*;
use crate::customer::{named_view, named_views};
use crate::diagnostics::TelemetryGroup;
use crate::numtext::{dec, push_dec};
use crate::storage_health::{DriveReading, SourceOutcome as StorageOutcome, StorageProbe, StorageSource};
use crate::text::{append_str, chars_of, join, owned, string_of, views};
use crate::NamedValue;

verus! {

pub type Rows = Seq<(Seq<char>, Seq<char>)>;

/// The frozen phrase for a subsystem this build cannot read yet.
pub const NOT_COLLECTED: &'static str = "Not collected in this scan. Advance scan collection for this subsystem arrives in a later collector version.";

/// The phrase for a value that needs a kernel-mode sensor driver.
pub const NEEDS_KERNEL_SENSOR: &'static str = "Not collected in this scan. This value requires a kernel-mode sensor driver, which CYVRA deliberately does not ship.";

pub const NOT_REPORTED: &'static str = "Not reported by firmware";

/// A value, or that firmware did not report it.
pub open spec fn or_missing(value: Option<Seq<char>>) -> Seq<char> {
    match value {
        Some(v) => v,
        None => NOT_REPORTED@,
    }
}

pub open spec fn text_of(o: Option<String>) -> Option<Seq<char>> {
    match o {
        Some(s) => Some(s@),
        None => None,
    }
}

/// A number followed by `suffix`, when there is one.
pub open spec fn num_text(o: Option<u64>, suffix: Seq<char>) -> Option<Seq<char>> {
    match o {
        Some(n) => Some(dec(n as nat) + suffix),
        None => None,
    }
}

pub open spec fn widen(o: Option<u32>) -> Option<u64> {
    match o {
        Some(n) => Some(n as u64),
        None => None,
    }
}

pub fn widen_exec(o: Option<u32>) -> (r: Option<u64>)
    ensures
        r == widen(o),
{
    match o {
        Some(n) => Some(n as u64),
        None => None,
    }
}

pub fn num_string(o: Option<u64>, suffix: &str) -> (r: Option<String>)
    ensures
        text_of(r) == num_text(o, suffix@),
{
    match o {
        Some(n) => {
            let mut v: Vec<char> = Vec::new();
            push_dec(&mut v, n);
            append_str(&mut v, suffix);
            Some(string_of(&v))
        },
        None => None,
    }
}

pub fn clone_text(o: &Option<String>) -> (r: Option<String>)
    ensures
        text_of(r) == text_of(*o),
{
    match o {
        Some(s) => Some(s.clone()),
        None => None,
    }
}

pub fn push_row(rows: &mut Vec<NamedValue>, label: &str, value: String)
    ensures
        named_views(final(rows)@) == named_views(old(rows)@).push((label@, value@)),
{
    let ghost before = named_views(rows@);
    let ghost vv = value@;
    rows.push(NamedValue { label: owned(label), value });
    assert(named_views(rows@) =~= before.push((label@, vv)));
}

pub fn push_optional(rows: &mut Vec<NamedValue>, label: &str, value: Option<String>)
    ensures
        named_views(final(rows)@) == named_views(old(rows)@).push((label@, or_missing(text_of(value)))),
{
    match value {
        Some(v) => push_row(rows, label, v),
        None => push_row(rows, label, owned(NOT_REPORTED)),
    }
}

// ---- storage ----

/// Why storage health could not be assessed.
pub open spec fn storage_gap_text(s: StorageProbe) -> Seq<char> {
    let reliability = crate::storage_health::outcome_in(s.sources@, StorageSource::ReliabilityCounter);
    let predict = crate::storage_health::outcome_in(s.sources@, StorageSource::PredictFailure);
    if s.probe_error is Some {
        "The storage health probe could not run on this PC"@
    } else if reliability == StorageOutcome::PermissionDenied || predict == StorageOutcome::PermissionDenied {
        "Windows refused the storage SMART query on this account"@
    } else if reliability == StorageOutcome::Unsupported {
        "Windows does not expose storage reliability counters on this PC"@
    } else if reliability == StorageOutcome::CollectionError {
        "Windows returned an error for the storage SMART query"@
    } else {
        "Storage SMART telemetry was not returned for the disks on this PC"@
    }
}

pub fn storage_gap(s: &StorageProbe) -> (r: &'static str)
    ensures
        r@ == storage_gap_text(*s),
{
    if s.probe_error.is_some() {
        return "The storage health probe could not run on this PC";
    }
    if s.reliability_refused() {
        return "Windows refused the storage SMART query on this account";
    }
    match s.outcome_for(StorageSource::ReliabilityCounter) {
        StorageOutcome::PermissionDenied => "Windows refused the storage SMART query on this account",
        StorageOutcome::Unsupported => "Windows does not expose storage reliability counters on this PC",
        StorageOutcome::CollectionError => "Windows returned an error for the storage SMART query",
        StorageOutcome::NotQueried | StorageOutcome::Reported => {
            "Storage SMART telemetry was not returned for the disks on this PC"
        },
    }
}

/// The rows printed when storage could not be read at all.
pub open spec fn unread_storage_rows() -> Rows {
    seq![
        ("Bus type"@, NOT_COLLECTED@),
        ("Power-on hours"@, NOT_COLLECTED@),
        ("Power cycles"@, NOT_COLLECTED@),
        ("Total bytes written"@, NOT_COLLECTED@),
        ("Percentage used"@, NOT_COLLECTED@),
        ("Available spare"@, NOT_COLLECTED@),
        ("Media errors"@, NOT_COLLECTED@),
        ("Sectors pending reallocation"@, NOT_COLLECTED@),
        ("Predicted failure"@, NOT_COLLECTED@),
    ]
}

fn push_unread_storage(rows: &mut Vec<NamedValue>)
    ensures
        named_views(final(rows)@) == named_views(old(rows)@) + unread_storage_rows(),
{
    let ghost before = named_views(rows@);
    push_row(rows, "Bus type", owned(NOT_COLLECTED));
    push_row(rows, "Power-on hours", owned(NOT_COLLECTED));
    push_row(rows, "Power cycles", owned(NOT_COLLECTED));
    push_row(rows, "Total bytes written", owned(NOT_COLLECTED));
    push_row(rows, "Percentage used", owned(NOT_COLLECTED));
    push_row(rows, "Available spare", owned(NOT_COLLECTED));
    push_row(rows, "Media errors", owned(NOT_COLLECTED));
    push_row(rows, "Sectors pending reallocation", owned(NOT_COLLECTED));
    push_row(rows, "Predicted failure", owned(NOT_COLLECTED));
    assert(named_views(rows@) =~= before + unread_storage_rows());
}

pub open spec fn drive_name(d: DriveReading) -> Seq<char> {
    match d.model {
        Some(m) => m@,
        None => match d.serial_number {
            Some(n) => n@,
            None => "Storage device"@,
        },
    }
}

/// The drive whose details are printed: the first scored drive, else the
/// first drive.
pub open spec fn primary_drive(s: StorageProbe) -> DriveReading {
    let scoring = crate::storage_health::scoring_spec(s.drives@);
    if scoring.len() > 0 {
        scoring[0]
    } else {
        s.drives@[0]
    }
}

pub open spec fn drive_identity_rows(d: DriveReading) -> Rows {
    seq![
        ("Model"@, or_missing(text_of(d.model))),
        ("Serial number"@, or_missing(text_of(d.serial_number))),
        ("Firmware revision"@, or_missing(text_of(d.firmware_revision))),
        ("Bus type"@, or_missing(text_of(d.bus_type))),
        ("Media kind"@, or_missing(text_of(d.media_kind))),
        ("Capacity"@, or_missing(num_text(d.capacity_bytes, " bytes"@))),
        (
            "Rotational"@,
            or_missing(
                match d.rotational {
                    Some(true) => Some("Yes (magnetic)"@),
                    Some(false) => Some("No (solid state)"@),
                    None => None,
                },
            ),
        ),
    ]
}

pub open spec fn drive_health_rows(d: DriveReading) -> Rows {
    seq![
        ("Power-on hours"@, or_missing(num_text(d.power_on_hours, ""@))),
        ("Power cycles"@, or_missing(num_text(d.power_cycles, ""@))),
        (
            "Percentage used"@,
            or_missing(num_text(widen(d.percentage_used), "% (firmware wear, not a remaining-life estimate we invented)"@)),
        ),
        (
            "Remaining life (derived)"@,
            or_missing(num_text(widen(d.remaining_life_percent), "% (100 minus percentage used)"@)),
        ),
        ("Available spare"@, or_missing(num_text(widen(d.available_spare_percent), "%"@))),
        ("Composite temperature"@, or_missing(num_text(d.temperature_c, " °C"@))),
        ("Uncorrected media errors"@, or_missing(num_text(d.media_errors, ""@))),
        ("Reallocated sectors"@, or_missing(num_text(d.reallocated_sectors, ""@))),
        ("Sectors pending reallocation"@, or_missing(num_text(d.pending_sectors, ""@))),
        (
            "Predicted failure"@,
            or_missing(
                match d.predicts_failure {
                    Some(true) => Some("Yes — firmware reports a predicted failure"@),
                    Some(false) => Some("No"@),
                    None => None,
                },
            ),
        ),
    ]
}

fn push_drive_identity(rows: &mut Vec<NamedValue>, d: &DriveReading)
    ensures
        named_views(final(rows)@) == named_views(old(rows)@) + drive_identity_rows(*d),
{
    let ghost before = named_views(rows@);
    push_optional(rows, "Model", clone_text(&d.model));
    push_optional(rows, "Serial number", clone_text(&d.serial_number));
    push_optional(rows, "Firmware revision", clone_text(&d.firmware_revision));
    push_optional(rows, "Bus type", clone_text(&d.bus_type));
    push_optional(rows, "Media kind", clone_text(&d.media_kind));
    push_optional(rows, "Capacity", num_string(d.capacity_bytes, " bytes"));
    let rotational = match d.rotational {
        Some(true) => Some(owned("Yes (magnetic)")),
        Some(false) => Some(owned("No (solid state)")),
        None => None,
    };
    push_optional(rows, "Rotational", rotational);
    assert(named_views(rows@) =~= before + drive_identity_rows(*d));
}

fn push_drive_health(rows: &mut Vec<NamedValue>, d: &DriveReading)
    ensures
        named_views(final(rows)@) == named_views(old(rows)@) + drive_health_rows(*d),
{
    let ghost before = named_views(rows@);
    push_optional(rows, "Power-on hours", num_string(d.power_on_hours, ""));
    push_optional(rows, "Power cycles", num_string(d.power_cycles, ""));
    push_optional(
        rows,
        "Percentage used",
        num_string(widen_exec(d.percentage_used), "% (firmware wear, not a remaining-life estimate we invented)"),
    );
    push_optional(
        rows,
        "Remaining life (derived)",
        num_string(widen_exec(d.remaining_life_percent), "% (100 minus percentage used)"),
    );
    push_optional(rows, "Available spare", num_string(widen_exec(d.available_spare_percent), "%"));
    push_optional(rows, "Composite temperature", num_string(d.temperature_c, " °C"));
    push_optional(rows, "Uncorrected media errors", num_string(d.media_errors, ""));
    push_optional(rows, "Reallocated sectors", num_string(d.reallocated_sectors, ""));
    push_optional(rows, "Sectors pending reallocation", num_string(d.pending_sectors, ""));
    let predicted = match d.predicts_failure {
        Some(true) => Some(owned("Yes — firmware reports a predicted failure")),
        Some(false) => Some(owned("No")),
        None => None,
    };
    push_optional(rows, "Predicted failure", predicted);
    assert(named_views(rows@) =~= before + drive_health_rows(*d));
}

/// The storage group's rows.
pub open spec fn storage_rows(s: StorageProbe) -> Rows {
    match s.probe_error {
        Some(e) => seq![("Storage probe"@, e@)] + unread_storage_rows(),
        None => if s.drives@.len() == 0 {
            seq![("Storage devices"@, "Not collected in this scan. "@ + storage_gap_text(s) + "."@)]
                + unread_storage_rows()
        } else {
            seq![("Storage devices"@, join(s.drives@.map_values(|d: DriveReading| drive_name(d)), "; "@))]
                + drive_identity_rows(primary_drive(s)) + drive_health_rows(primary_drive(s)) + seq![
                (
                    "Total bytes written"@,
                    "Not collected in this scan. Windows reliability counters on this build do not expose host TBW."@,
                ),
            ]
        },
    }
}

pub open spec fn group_is(g: TelemetryGroup, title: Seq<char>, note: Option<Seq<char>>, rows: Rows) -> bool {
    &&& g.title@ == title
    &&& text_of(g.note) == note
    &&& named_views(g.rows@) == rows
}

/// Storage health and SMART, as Report D prints it.
pub fn storage_group(s: &StorageProbe) -> (g: TelemetryGroup)
    ensures
        group_is(
            g,
            "Storage health and SMART"@,
            if s.probe_error is None && s.drives@.len() > 0 {
                Some("Power-on hours and wear are printed for the buyer. They are not scored in rubric CG-1.0."@)
            } else {
                None
            },
            storage_rows(*s),
        ),
{
    let mut rows: Vec<NamedValue> = Vec::new();
    if let Some(error) = s.probe_error {
        push_row(&mut rows, "Storage probe", owned(error));
        push_unread_storage(&mut rows);
        assert(named_views(rows@) =~= storage_rows(*s));
        return TelemetryGroup { title: owned("Storage health and SMART"), note: None, rows };
    }
    if s.drives.len() == 0 {
        let mut v = chars_of("Not collected in this scan. ");
        append_str(&mut v, storage_gap(s));
        append_str(&mut v, ".");
        push_row(&mut rows, "Storage devices", string_of(&v));
        push_unread_storage(&mut rows);
        assert(named_views(rows@) =~= storage_rows(*s));
        return TelemetryGroup { title: owned("Storage health and SMART"), note: None, rows };
    }
    let mut names: Vec<Vec<char>> = Vec::new();
    let mut i: usize = 0;
    while i < s.drives.len()
        invariant
            i <= s.drives@.len(),
            views(names@) == s.drives@.take(i as int).map_values(|d: DriveReading| drive_name(d)),
        decreases s.drives.len() - i,
    {
        let ghost before = views(names@);
        let n = chars_of(s.drives[i].display_name().as_str());
        let ghost nv = n@;
        names.push(n);
        proof {
            assert(views(names@) =~= before.push(nv));
            assert(s.drives@.take(i + 1) =~= s.drives@.take(i as int).push(s.drives@[i as int]));
        }
        i += 1;
        assert(views(names@) =~= s.drives@.take(i as int).map_values(|d: DriveReading| drive_name(d)));
    }
    assert(s.drives@.take(s.drives@.len() as int) =~= s.drives@);
    let mut joined: Vec<char> = Vec::new();
    crate::report::push_joined(&mut joined, &names, "; ");
    push_row(&mut rows, "Storage devices", string_of(&joined));
    let scoring = s.scoring_drives();
    let primary: &DriveReading = if scoring.len() > 0 {
        scoring[0]
    } else {
        &s.drives[0]
    };
    push_drive_identity(&mut rows, primary);
    push_drive_health(&mut rows, primary);
    push_row(
        &mut rows,
        "Total bytes written",
        owned("Not collected in this scan. Windows reliability counters on this build do not expose host TBW."),
    );
    assert(named_views(rows@) =~= storage_rows(*s));
    TelemetryGroup {
        title: owned("Storage health and SMART"),
        note: Some(owned("Power-on hours and wear are printed for the buyer. They are not scored in rubric CG-1.0.")),
        rows,
    }
}

pub open spec fn storage_source_rows(s: StorageProbe) -> Rows {
    s.sources@.map_values(
        |x: crate::storage_health::SourceStatus| (x.source.label_text(), x.outcome.customer_text()),
    )
}

/// The storage sources Advance scan asked, each with the answer it gave.
pub fn storage_source_group(s: &StorageProbe) -> (g: TelemetryGroup)
    ensures
        group_is(
            g,
            "Storage sources consulted"@,
            Some(
                "Advance scan asks Windows for identity, reliability counters and the SMART predict-failure bit, then records which source answered."@,
            ),
            storage_source_rows(*s),
        ),
{
    let mut rows: Vec<NamedValue> = Vec::new();
    let mut i: usize = 0;
    while i < s.sources.len()
        invariant
            i <= s.sources@.len(),
            named_views(rows@) == storage_source_rows(*s).take(i as int),
        decreases s.sources.len() - i,
    {
        let x = s.sources[i];
        push_row(&mut rows, x.source.label(), owned(x.outcome.customer_label()));
        assert(storage_source_rows(*s).take(i + 1) =~= storage_source_rows(*s).take(i as int).push(
            storage_source_rows(*s)[i as int],
        ));
        i += 1;
    }
    assert(storage_source_rows(*s).take(i as int) =~= storage_source_rows(*s));
    TelemetryGroup {
        title: owned("Storage sources consulted"),
        note: Some(
            owned(
                "Advance scan asks Windows for identity, reliability counters and the SMART predict-failure bit, then records which source answered.",
            ),
        ),
        rows,
    }
}

/// The benchmark group: the status line of each consented workload.
pub fn bench_group(cpu: &str, memory: &str, sequential: &str, random: &str, write: &str) -> (g: TelemetryGroup)
    ensures
        group_is(
            g,
            "Benchmarks"@,
            Some("Workloads run only with consent. Package temperature is never inferred from a missing sensor."@),
            seq![
                ("Processor sustained clock"@, cpu@),
                ("Memory pattern check"@, memory@),
                ("Sequential read"@, sequential@),
                ("Random read"@, random@),
                ("Write benchmark"@, write@),
            ],
        ),
{
    let mut rows: Vec<NamedValue> = Vec::new();
    push_row(&mut rows, "Processor sustained clock", owned(cpu));
    push_row(&mut rows, "Memory pattern check", owned(memory));
    push_row(&mut rows, "Sequential read", owned(sequential));
    push_row(&mut rows, "Random read", owned(random));
    push_row(&mut rows, "Write benchmark", owned(write));
    assert(named_views(rows@) =~= seq![
        ("Processor sustained clock"@, cpu@),
        ("Memory pattern check"@, memory@),
        ("Sequential read"@, sequential@),
        ("Random read"@, random@),
        ("Write benchmark"@, write@),
    ]);
    TelemetryGroup {
        title: owned("Benchmarks"),
        note: Some(
            owned("Workloads run only with consent. Package temperature is never inferred from a missing sensor."),
        ),
        rows,
    }
}

} // verus!
