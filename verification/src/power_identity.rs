//! Report D groups for power, processor and memory: what the battery and
//! identity probes read, and which sources they asked.

use vstd::prelude::*;
use crate::battery_probe::{
    health_band_spec, outcome_in as battery_outcome_in, primary_index, wear_basis, BatteryProbe,
    BatteryReading, BatterySource, SourceOutcome as BatteryOutcome, RELATIVE_CAPACITY_NOTE,
};
use crate::cpu_memory::{cache_text, CpuMemoryProbe, MemoryModuleReading};
use crate::customer::named_views;
use crate::customer_fields::round_even;
use crate::diagnostics::TelemetryGroup;
use crate::numtext::{dec, push_dec};
use crate::telemetry::{
    clone_text, group_is, num_string, num_text, or_missing, push_optional, push_row, text_of, widen,
    widen_exec, Rows, NEEDS_KERNEL_SENSOR, NOT_COLLECTED,
};
use crate::text::{append_str, join, owned, string_of, views};
use crate::NamedValue;

verus! {

// ---- battery ----

/// Why the battery could not be read.
pub open spec fn battery_gap_text(p: BatteryProbe) -> Seq<char> {
    if p.probe_error is Some {
        "The battery probe could not run on this PC"@
    } else {
        match battery_outcome_in(p.sources@, BatterySource::ManagementClass) {
            BatteryOutcome::PermissionDenied => "Windows refused the battery query on this account"@,
            BatteryOutcome::Unsupported => "Windows does not expose a battery class on this PC"@,
            BatteryOutcome::CollectionError => "Windows returned an error for the battery query"@,
            BatteryOutcome::NotQueried => "The battery query did not run"@,
            BatteryOutcome::Reported => "The battery firmware did not report a design capacity"@,
        }
    }
}

/// Why the battery could not be read, in the words Report D uses.
pub fn battery_gap(p: &BatteryProbe) -> (r: &'static str)
    ensures
        r@ == battery_gap_text(*p),
{
    if p.probe_error.is_some() {
        return "The battery probe could not run on this PC";
    }
    match p.outcome_for(BatterySource::ManagementClass) {
        BatteryOutcome::PermissionDenied => "Windows refused the battery query on this account",
        BatteryOutcome::Unsupported => "Windows does not expose a battery class on this PC",
        BatteryOutcome::CollectionError => "Windows returned an error for the battery query",
        BatteryOutcome::NotQueried => "The battery query did not run",
        BatteryOutcome::Reported => "The battery firmware did not report a design capacity",
    }
}

/// Windows answered the battery class and named no pack.
pub open spec fn no_battery_spec(p: BatteryProbe) -> bool {
    p.readings@.len() == 0 && exists|i: int|
        0 <= i < p.sources@.len() && (#[trigger] p.sources@[i]).source == BatterySource::ManagementClass
            && p.sources@[i].outcome == BatteryOutcome::Reported
}

/// Wear in whole percent: the share of design capacity the full charge has
/// lost, rounded half to even, never below zero.
pub open spec fn wear_whole(full: u64, design: u64) -> nat {
    if full >= design {
        0
    } else {
        round_even((100 * (design - full)) as nat, design as nat)
    }
}

/// Health in whole percent: full charge over design, at most 100, rounded
/// half to even.
pub open spec fn health_whole(full: u64, design: u64) -> nat {
    if full >= design {
        100
    } else {
        round_even(100 * full as nat, design as nat)
    }
}

pub open spec fn wear_text(r: BatteryReading) -> Option<Seq<char>> {
    match wear_basis(r) {
        Some((f, d)) => Some(dec(wear_whole(f, d)) + "%"@),
        None => None,
    }
}

pub open spec fn health_text(r: BatteryReading) -> Option<Seq<char>> {
    match wear_basis(r) {
        Some((f, d)) => Some(dec(health_whole(f, d)) + "% of design capacity"@),
        None => None,
    }
}

pub open spec fn unit_text(r: BatteryReading) -> Seq<char> {
    if r.relative_capacity {
        ""@
    } else {
        " mWh"@
    }
}

pub open spec fn source_text(s: Option<BatterySource>) -> Option<Seq<char>> {
    match s {
        Some(x) => Some(x.label_text()),
        None => None,
    }
}

/// The rows printed for the pack Report D reports on.
pub open spec fn battery_reading_rows(count: nat, r: BatteryReading) -> Rows {
    seq![
        ("Battery present"@, "Yes"@),
        ("Packs reported"@, dec(count)),
        ("Battery name"@, or_missing(text_of(r.device_name))),
        ("Manufacturer"@, or_missing(text_of(r.manufacturer))),
        ("Chemistry"@, or_missing(text_of(r.chemistry))),
        ("Serial number"@, or_missing(text_of(r.serial_number))),
        ("Manufacture date"@, or_missing(text_of(r.manufacture_date))),
        ("Design capacity"@, or_missing(num_text(r.designed_capacity, unit_text(r)))),
        ("Full charge capacity"@, or_missing(num_text(r.full_charge_capacity, unit_text(r)))),
        ("Battery wear"@, or_missing(wear_text(r))),
        ("Battery health"@, or_missing(health_text(r))),
        ("Health classification"@, or_missing(health_band_spec(r))),
        ("Cycle count"@, or_missing(num_text(widen(r.cycle_count), ""@))),
        ("Charge level now"@, or_missing(num_text(widen(r.charge_percent), "% (charge level, not health)"@))),
        ("Design voltage"@, or_missing(num_text(widen(r.design_voltage_mv), " mV"@))),
        ("Power state"@, or_missing(text_of(r.status_text))),
        ("Capacity reported by"@, or_missing(source_text(r.capacity_source))),
    ]
}

/// The battery group's rows.
pub open spec fn battery_rows(p: BatteryProbe) -> Rows {
    match p.probe_error {
        Some(e) => seq![("Battery probe"@, e@)],
        None => match primary_index(p.readings@) {
            Some(i) => battery_reading_rows(p.readings@.len(), p.readings@[i]),
            None => seq![
                (
                    "Battery present"@,
                    if no_battery_spec(p) {
                        "Windows reports no battery on this chassis. This is expected on a desktop."@
                    } else {
                        "Not collected in this scan. "@ + battery_gap_text(p) + "."@
                    },
                ),
            ],
        },
    }
}

pub open spec fn any_relative(p: BatteryProbe) -> bool {
    exists|i: int| 0 <= i < p.readings@.len() && (#[trigger] p.readings@[i]).relative_capacity
}

/// `100 * num / den`, rounded half to even; `num` is at most `den`.
pub fn percent_of_whole(num: u64, den: u64) -> (q: u64)
    requires
        0 < den,
        num <= den,
    ensures
        q == round_even(100 * num as nat, den as nat),
        q <= 100,
{
    let n: u128 = 100 * (num as u128);
    let d: u128 = den as u128;
    let q = n / d;
    let r = n % d;
    proof {
        assert(q <= 100) by (nonlinear_arith)
            requires
                n == 100 * num,
                num <= den,
                d == den,
                0 < d,
                q == n / d,
        ;
        assert(q == 100 ==> r == 0) by (nonlinear_arith)
            requires
                n == 100 * num,
                num <= den,
                d == den,
                0 < d,
                q == n / d,
                r == n % d,
        ;
    }
    if 2 * r > d || (2 * r == d && q % 2 == 1) {
        (q + 1) as u64
    } else {
        q as u64
    }
}

fn percent_string(value: u64, suffix: &str) -> (s: String)
    ensures
        s@ == dec(value as nat) + suffix@,
{
    let mut v: Vec<char> = Vec::new();
    push_dec(&mut v, value);
    append_str(&mut v, suffix);
    string_of(&v)
}

fn wear_string(r: &BatteryReading) -> (s: Option<String>)
    ensures
        text_of(s) == wear_text(*r),
{
    match r.capacity_basis() {
        Some((f, d)) => {
            let w = if f >= d {
                0
            } else {
                percent_of_whole(d - f, d)
            };
            assert(w == wear_whole(f, d)) by {
                if f < d {
                    assert(100 * (d - f) as nat == (100 * (d - f)) as nat);
                }
            }
            Some(percent_string(w, "%"))
        },
        None => None,
    }
}

fn health_string(r: &BatteryReading) -> (s: Option<String>)
    ensures
        text_of(s) == health_text(*r),
{
    match r.capacity_basis() {
        Some((f, d)) => {
            let h = if f >= d {
                100
            } else {
                percent_of_whole(f, d)
            };
            Some(percent_string(h, "% of design capacity"))
        },
        None => None,
    }
}

fn push_reading(rows: &mut Vec<NamedValue>, count: usize, r: &BatteryReading)
    ensures
        named_views(final(rows)@) == named_views(old(rows)@) + battery_reading_rows(count as nat, *r),
{
    let ghost before = named_views(rows@);
    let unit = r.capacity_unit();
    push_row(rows, "Battery present", owned("Yes"));
    push_row(rows, "Packs reported", crate::numtext::dec_string(count as u64));
    push_optional(rows, "Battery name", clone_text(&r.device_name));
    push_optional(rows, "Manufacturer", clone_text(&r.manufacturer));
    push_optional(rows, "Chemistry", clone_text(&r.chemistry));
    push_optional(rows, "Serial number", clone_text(&r.serial_number));
    push_optional(rows, "Manufacture date", clone_text(&r.manufacture_date));
    push_optional(rows, "Design capacity", num_string(r.designed_capacity, unit));
    push_optional(rows, "Full charge capacity", num_string(r.full_charge_capacity, unit));
    push_optional(rows, "Battery wear", wear_string(r));
    push_optional(rows, "Battery health", health_string(r));
    let band = match r.health_band() {
        Some(b) => Some(owned(b)),
        None => None,
    };
    assert(text_of(band) == health_band_spec(*r));
    push_optional(rows, "Health classification", band);
    push_optional(rows, "Cycle count", num_string(widen_exec(r.cycle_count), ""));
    push_optional(
        rows,
        "Charge level now",
        num_string(widen_exec(r.charge_percent), "% (charge level, not health)"),
    );
    push_optional(rows, "Design voltage", num_string(widen_exec(r.design_voltage_mv), " mV"));
    push_optional(rows, "Power state", clone_text(&r.status_text));
    let source = match r.capacity_source {
        Some(s) => Some(owned(s.label())),
        None => None,
    };
    assert(text_of(source) == source_text(r.capacity_source));
    push_optional(rows, "Capacity reported by", source);
    assert(named_views(rows@) =~= before + battery_reading_rows(count as nat, *r));
}

/// Battery and power, as Report D prints it. A charge level is never
/// presented as health.
pub fn battery_group(p: &BatteryProbe) -> (g: TelemetryGroup)
    ensures
        group_is(
            g,
            "Battery and power"@,
            if p.probe_error is None && primary_index(p.readings@) is Some && any_relative(*p) {
                Some(RELATIVE_CAPACITY_NOTE@)
            } else {
                None
            },
            battery_rows(*p),
        ),
{
    let mut rows: Vec<NamedValue> = Vec::new();
    if let Some(error) = p.probe_error {
        push_row(&mut rows, "Battery probe", owned(error));
        assert(named_views(rows@) =~= battery_rows(*p));
        return TelemetryGroup { title: owned("Battery and power"), note: None, rows };
    }
    match p.primary() {
        None => {
            let value = if p.reports_no_battery() {
                owned("Windows reports no battery on this chassis. This is expected on a desktop.")
            } else {
                let mut v: Vec<char> = Vec::new();
                append_str(&mut v, "Not collected in this scan. ");
                append_str(&mut v, battery_gap(p));
                append_str(&mut v, ".");
                string_of(&v)
            };
            push_row(&mut rows, "Battery present", value);
            assert(named_views(rows@) =~= battery_rows(*p));
            TelemetryGroup { title: owned("Battery and power"), note: None, rows }
        },
        Some(reading) => {
            push_reading(&mut rows, p.readings.len(), reading);
            assert(named_views(rows@) =~= battery_rows(*p));
            let note = match p.relative_capacity_note() {
                Some(n) => Some(owned(n)),
                None => None,
            };
            TelemetryGroup { title: owned("Battery and power"), note, rows }
        },
    }
}

/// The battery sources, each with the answer it gave.
pub open spec fn battery_source_rows(p: BatteryProbe) -> Rows {
    p.sources@.map_values(
        |s: crate::battery_probe::SourceStatus| (s.source.label_text(), s.outcome.customer_text()),
    )
}

/// Every battery source Advance scan asked, so a missing value is explained.
pub fn battery_source_group(p: &BatteryProbe) -> (g: TelemetryGroup)
    ensures
        group_is(
            g,
            "Battery sources consulted"@,
            Some(
                "Advance scan asks every source Windows offers and records the answer, so a missing value can be explained rather than guessed."@,
            ),
            battery_source_rows(*p),
        ),
{
    let mut rows: Vec<NamedValue> = Vec::new();
    let mut i: usize = 0;
    while i < p.sources.len()
        invariant
            i <= p.sources@.len(),
            named_views(rows@) == battery_source_rows(*p).take(i as int),
        decreases p.sources.len() - i,
    {
        let s = p.sources[i];
        push_row(&mut rows, s.source.label(), owned(s.outcome.customer_label()));
        assert(battery_source_rows(*p).take(i + 1) =~= battery_source_rows(*p).take(i as int).push(
            battery_source_rows(*p)[i as int],
        ));
        i += 1;
    }
    assert(battery_source_rows(*p).take(i as int) =~= battery_source_rows(*p));
    TelemetryGroup {
        title: owned("Battery sources consulted"),
        note: Some(
            owned(
                "Advance scan asks every source Windows offers and records the answer, so a missing value can be explained rather than guessed.",
            ),
        ),
        rows,
    }
}

// ---- processor and memory ----

pub open spec fn kernel_sensor_rows() -> Rows {
    seq![("Package temperature"@, NEEDS_KERNEL_SENSOR@), ("Fan speed"@, NEEDS_KERNEL_SENSOR@)]
}

/// The processor group's rows.
pub open spec fn processor_rows(p: CpuMemoryProbe) -> Rows {
    match p.probe_error {
        Some(e) => seq![("Processor probe"@, e@)] + kernel_sensor_rows(),
        None => match p.processor {
            None => seq![("Processor"@, "Not collected in this scan. Windows did not name a processor."@)]
                + kernel_sensor_rows(),
            Some(cpu) => seq![
                ("Processor"@, or_missing(text_of(cpu.name))),
                ("Manufacturer"@, or_missing(text_of(cpu.manufacturer))),
                ("Cores"@, or_missing(num_text(widen(cpu.cores), ""@))),
                ("Logical processors"@, or_missing(num_text(widen(cpu.logical_processors), ""@))),
                ("Maximum clock"@, or_missing(num_text(widen(cpu.max_mhz), " MHz"@))),
                ("Current clock (idle sample)"@, or_missing(num_text(widen(cpu.current_mhz), " MHz"@))),
                ("Cache hierarchy"@, or_missing(cache_text(cpu.l2_kb, cpu.l3_kb))),
                ("Instruction sets"@, NOT_COLLECTED@),
            ] + kernel_sensor_rows(),
        },
    }
}

fn push_kernel_sensor_rows(rows: &mut Vec<NamedValue>)
    ensures
        named_views(final(rows)@) == named_views(old(rows)@) + kernel_sensor_rows(),
{
    let ghost before = named_views(rows@);
    push_row(rows, "Package temperature", owned(NEEDS_KERNEL_SENSOR));
    push_row(rows, "Fan speed", owned(NEEDS_KERNEL_SENSOR));
    assert(named_views(rows@) =~= before + kernel_sensor_rows());
}

/// Processor and thermal, as Report D prints it. Temperatures and fan speed
/// are never read, and say why.
pub fn processor_group(p: &CpuMemoryProbe) -> (g: TelemetryGroup)
    ensures
        group_is(
            g,
            "Processor and thermal"@,
            if p.probe_error is None && p.processor is Some {
                Some("Idle clock is not a load measurement. Sustained-clock points wait for a consented workload."@)
            } else {
                None
            },
            processor_rows(*p),
        ),
{
    let mut rows: Vec<NamedValue> = Vec::new();
    if let Some(error) = p.probe_error {
        push_row(&mut rows, "Processor probe", owned(error));
        push_kernel_sensor_rows(&mut rows);
        assert(named_views(rows@) =~= processor_rows(*p));
        return TelemetryGroup { title: owned("Processor and thermal"), note: None, rows };
    }
    match &p.processor {
        None => {
            push_row(
                &mut rows,
                "Processor",
                owned("Not collected in this scan. Windows did not name a processor."),
            );
            push_kernel_sensor_rows(&mut rows);
            assert(named_views(rows@) =~= processor_rows(*p));
            TelemetryGroup { title: owned("Processor and thermal"), note: None, rows }
        },
        Some(cpu) => {
            push_optional(&mut rows, "Processor", clone_text(&cpu.name));
            push_optional(&mut rows, "Manufacturer", clone_text(&cpu.manufacturer));
            push_optional(&mut rows, "Cores", num_string(widen_exec(cpu.cores), ""));
            push_optional(
                &mut rows,
                "Logical processors",
                num_string(widen_exec(cpu.logical_processors), ""),
            );
            push_optional(&mut rows, "Maximum clock", num_string(widen_exec(cpu.max_mhz), " MHz"));
            push_optional(
                &mut rows,
                "Current clock (idle sample)",
                num_string(widen_exec(cpu.current_mhz), " MHz"),
            );
            push_optional(&mut rows, "Cache hierarchy", cpu.cache_summary());
            push_row(&mut rows, "Instruction sets", owned(NOT_COLLECTED));
            push_kernel_sensor_rows(&mut rows);
            assert(named_views(rows@) =~= processor_rows(*p));
            TelemetryGroup {
                title: owned("Processor and thermal"),
                note: Some(
                    owned(
                        "Idle clock is not a load measurement. Sustained-clock points wait for a consented workload.",
                    ),
                ),
                rows,
            }
        },
    }
}

/// One memory module as listed: slot, capacity and speed.
pub open spec fn module_text(m: MemoryModuleReading) -> Seq<char> {
    (match m.locator {
        Some(l) => l@,
        None => "slot"@,
    }) + " · "@ + (match m.capacity_bytes {
        Some(b) => dec(b as nat) + " bytes"@,
        None => "capacity not reported"@,
    }) + " · "@ + (match m.speed_mhz {
        Some(s) => dec(s as nat) + " MHz"@,
        None => "speed not reported"@,
    })
}

/// The memory group's rows.
pub open spec fn memory_rows(p: CpuMemoryProbe) -> Rows {
    match p.probe_error {
        Some(e) => seq![("Memory probe"@, e@)],
        None => seq![
            ("Installed total"@, or_missing(num_text(p.installed_bytes, " bytes"@))),
            ("Available"@, or_missing(num_text(p.available_bytes, " bytes"@))),
            ("Channel mode"@, "Not inferred. Windows module list is not a proof of dual-channel interleave."@),
            (
                "Modules"@,
                if p.modules@.len() == 0 {
                    "None enumerated by Windows."@
                } else {
                    join(p.modules@.map_values(|m: MemoryModuleReading| module_text(m)), "; "@)
                },
            ),
        ],
    }
}

fn module_chars(m: &MemoryModuleReading) -> (v: Vec<char>)
    ensures
        v@ == module_text(*m),
{
    let mut v: Vec<char> = Vec::new();
    match &m.locator {
        Some(l) => append_str(&mut v, l.as_str()),
        None => append_str(&mut v, "slot"),
    }
    append_str(&mut v, " · ");
    match m.capacity_bytes {
        Some(b) => {
            push_dec(&mut v, b);
            append_str(&mut v, " bytes");
        },
        None => append_str(&mut v, "capacity not reported"),
    }
    append_str(&mut v, " · ");
    match m.speed_mhz {
        Some(s) => {
            push_dec(&mut v, s as u64);
            append_str(&mut v, " MHz");
        },
        None => append_str(&mut v, "speed not reported"),
    }
    assert(v@ =~= module_text(*m));
    v
}

/// Memory, as Report D prints it: inventory only, never "memory verified".
pub fn memory_group(p: &CpuMemoryProbe) -> (g: TelemetryGroup)
    ensures
        group_is(
            g,
            "Memory"@,
            if p.probe_error is None {
                Some("Inventory only until a consented pattern spot check runs. Never printed as memory verified."@)
            } else {
                None
            },
            memory_rows(*p),
        ),
{
    let mut rows: Vec<NamedValue> = Vec::new();
    if let Some(error) = p.probe_error {
        push_row(&mut rows, "Memory probe", owned(error));
        assert(named_views(rows@) =~= memory_rows(*p));
        return TelemetryGroup { title: owned("Memory"), note: None, rows };
    }
    push_optional(&mut rows, "Installed total", num_string(p.installed_bytes, " bytes"));
    push_optional(&mut rows, "Available", num_string(p.available_bytes, " bytes"));
    push_row(
        &mut rows,
        "Channel mode",
        owned("Not inferred. Windows module list is not a proof of dual-channel interleave."),
    );
    if p.modules.len() == 0 {
        push_row(&mut rows, "Modules", owned("None enumerated by Windows."));
    } else {
        let mut parts: Vec<Vec<char>> = Vec::new();
        let mut i: usize = 0;
        while i < p.modules.len()
            invariant
                i <= p.modules@.len(),
                views(parts@) == p.modules@.take(i as int).map_values(
                    |m: MemoryModuleReading| module_text(m),
                ),
            decreases p.modules.len() - i,
        {
            let ghost before = views(parts@);
            let t = module_chars(&p.modules[i]);
            let ghost tv = t@;
            parts.push(t);
            proof {
                assert(views(parts@) =~= before.push(tv));
                assert(p.modules@.take(i + 1) =~= p.modules@.take(i as int).push(p.modules@[i as int]));
            }
            i += 1;
            assert(views(parts@) =~= p.modules@.take(i as int).map_values(
                |m: MemoryModuleReading| module_text(m),
            ));
        }
        assert(p.modules@.take(p.modules@.len() as int) =~= p.modules@);
        let mut joined: Vec<char> = Vec::new();
        crate::report::push_joined(&mut joined, &parts, "; ");
        push_row(&mut rows, "Modules", string_of(&joined));
    }
    assert(named_views(rows@) =~= memory_rows(*p));
    TelemetryGroup {
        title: owned("Memory"),
        note: Some(
            owned(
                "Inventory only until a consented pattern spot check runs. Never printed as memory verified.",
            ),
        ),
        rows,
    }
}

/// The identity sources, each with the answer it gave.
pub open spec fn identity_source_rows(p: CpuMemoryProbe) -> Rows {
    p.sources@.map_values(
        |s: crate::cpu_memory::SourceStatus| (s.source.label_text(), s.outcome.customer_text()),
    )
}

/// Every processor and memory source Advance scan asked.
pub fn identity_source_group(p: &CpuMemoryProbe) -> (g: TelemetryGroup)
    ensures
        group_is(
            g,
            "Processor and memory sources consulted"@,
            Some(
                "Advance scan asks Windows for processor identity and physical memory modules before any workload."@,
            ),
            identity_source_rows(*p),
        ),
{
    let mut rows: Vec<NamedValue> = Vec::new();
    let mut i: usize = 0;
    while i < p.sources.len()
        invariant
            i <= p.sources@.len(),
            named_views(rows@) == identity_source_rows(*p).take(i as int),
        decreases p.sources.len() - i,
    {
        let s = p.sources[i];
        push_row(&mut rows, s.source.label(), owned(s.outcome.customer_label()));
        assert(identity_source_rows(*p).take(i + 1) =~= identity_source_rows(*p).take(i as int).push(
            identity_source_rows(*p)[i as int],
        ));
        i += 1;
    }
    assert(identity_source_rows(*p).take(i as int) =~= identity_source_rows(*p));
    TelemetryGroup {
        title: owned("Processor and memory sources consulted"),
        note: Some(
            owned(
                "Advance scan asks Windows for processor identity and physical memory modules before any workload.",
            ),
        ),
        rows,
    }
}

} // verus!
