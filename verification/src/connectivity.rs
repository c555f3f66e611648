//! Report D groups for ports, radios, the display panel and capture devices:
//! what Windows enumerated, and which sources answered. MAC addresses are
//! never part of any row.

use vstd::prelude::*;
use crate::capture_probe::{answered, device_names, CaptureProbe, CaptureSource};
use crate::customer::named_views;
use crate::diagnostics::TelemetryGroup;
use crate::display_radio::{
    BluetoothReading, DisplayRadioProbe, DisplayRadioSource, EthernetReading, PanelReading,
    SourceStatus as RadioStatus, WifiReading,
};
use crate::numtext::{dec, push_dec};
use crate::probe_protocol::opt_view;
use crate::telemetry::{
    clone_text, group_is, num_string, num_text, or_missing, push_optional, push_row, widen, widen_exec,
    Rows, NOT_COLLECTED, NOT_REPORTED,
};
use crate::text::{append_str, join, owned, string_of, string_views, views};
use crate::usb_topology::{
    outcome_in as usb_outcome_in, strictly_ascending, SourceOutcome as UsbOutcome, UsbAttached,
    UsbNamed, UsbProbe, UsbSource,
};
use crate::NamedValue;

verus! {

pub const NONE_ENUMERATED: &'static str = "None enumerated by Windows";

// ---- radios ----

pub open spec fn first_some(a: Option<u32>, b: Option<u32>, c: Option<u32>) -> Option<u32> {
    if a is Some {
        a
    } else if b is Some {
        b
    } else {
        c
    }
}

pub open spec fn or_none(o: Option<Seq<char>>) -> Seq<char> {
    match o {
        Some(v) => v,
        None => NONE_ENUMERATED@,
    }
}

pub open spec fn wifi_rows(w: Option<WifiReading>) -> Rows {
    match w {
        None => seq![
            ("Wi-Fi adapter"@, NONE_ENUMERATED@),
            ("Wi-Fi state"@, NONE_ENUMERATED@),
            ("Wi-Fi signal quality"@, NONE_ENUMERATED@),
            ("Wi-Fi link speed"@, NONE_ENUMERATED@),
            ("Wi-Fi radio standards"@, NONE_ENUMERATED@),
        ],
        Some(a) => seq![
            (
                "Wi-Fi adapter"@,
                match a.name {
                    Some(n) => n@,
                    None => "Present"@,
                },
            ),
            ("Wi-Fi state"@, or_none(opt_view(a.state))),
            (
                "Wi-Fi signal quality"@,
                match a.signal_quality_percent {
                    Some(q) => dec(q as nat) + "%"@,
                    None => NONE_ENUMERATED@,
                },
            ),
            (
                "Wi-Fi link speed"@,
                match first_some(a.receive_mbps, a.transmit_mbps, a.link_mbps) {
                    Some(m) => dec(m as nat) + " Mbps"@,
                    None => NONE_ENUMERATED@,
                },
            ),
            ("Wi-Fi radio standards"@, or_none(opt_view(a.radio_standards))),
        ],
    }
}

pub open spec fn bluetooth_text(b: Option<BluetoothReading>) -> Seq<char> {
    match b {
        None => NONE_ENUMERATED@,
        Some(a) => match (a.name, a.state) {
            (Some(n), Some(s)) => n@ + " ("@ + s@ + ")"@,
            (Some(n), None) => n@,
            (None, Some(s)) => "Present ("@ + s@ + ")"@,
            (None, None) => "Present"@,
        },
    }
}

pub open spec fn ethernet_text(a: EthernetReading) -> Seq<char> {
    let label = match a.name {
        Some(n) => n@,
        None => match a.description {
            Some(d) => d@,
            None => "Ethernet"@,
        },
    };
    match (a.state, a.link_mbps) {
        (Some(s), Some(m)) => label + " ("@ + s@ + ", "@ + dec(m as nat) + " Mbps)"@,
        (Some(s), None) => label + " ("@ + s@ + ")"@,
        (None, Some(m)) => label + " ("@ + dec(m as nat) + " Mbps)"@,
        (None, None) => label,
    }
}

/// The radio rows shared by the ports group.
pub open spec fn radio_rows(r: DisplayRadioProbe) -> Rows {
    match r.probe_error {
        Some(e) => seq![
            ("Wi-Fi signal quality"@, e@),
            ("Wi-Fi link speed"@, e@),
            ("Bluetooth radio"@, e@),
            ("Ethernet link"@, e@),
        ],
        None => wifi_rows(r.wifi) + seq![
            ("Bluetooth radio"@, bluetooth_text(r.bluetooth)),
            (
                "Ethernet link"@,
                if r.ethernet@.len() == 0 {
                    NONE_ENUMERATED@
                } else {
                    join(r.ethernet@.map_values(|a: EthernetReading| ethernet_text(a)), "; "@)
                },
            ),
        ],
    }
}

fn text_or_none(o: &Option<String>) -> (s: String)
    ensures
        s@ == or_none(opt_view(*o)),
{
    match o {
        Some(v) => v.clone(),
        None => owned(NONE_ENUMERATED),
    }
}

fn num_or_none(o: Option<u32>, suffix: &str) -> (s: String)
    ensures
        s@ == (match o {
            Some(n) => dec(n as nat) + suffix@,
            None => NONE_ENUMERATED@,
        }),
{
    match o {
        Some(n) => {
            let mut v: Vec<char> = Vec::new();
            push_dec(&mut v, n as u64);
            append_str(&mut v, suffix);
            string_of(&v)
        },
        None => owned(NONE_ENUMERATED),
    }
}

fn push_wifi_rows(rows: &mut Vec<NamedValue>, w: &Option<WifiReading>)
    ensures
        named_views(final(rows)@) == named_views(old(rows)@) + wifi_rows(*w),
{
    let ghost before = named_views(rows@);
    match w {
        None => {
            push_row(rows, "Wi-Fi adapter", owned(NONE_ENUMERATED));
            push_row(rows, "Wi-Fi state", owned(NONE_ENUMERATED));
            push_row(rows, "Wi-Fi signal quality", owned(NONE_ENUMERATED));
            push_row(rows, "Wi-Fi link speed", owned(NONE_ENUMERATED));
            push_row(rows, "Wi-Fi radio standards", owned(NONE_ENUMERATED));
        },
        Some(a) => {
            let name = match &a.name {
                Some(n) => n.clone(),
                None => owned("Present"),
            };
            push_row(rows, "Wi-Fi adapter", name);
            push_row(rows, "Wi-Fi state", text_or_none(&a.state));
            push_row(rows, "Wi-Fi signal quality", num_or_none(a.signal_quality_percent, "%"));
            let speed = if a.receive_mbps.is_some() {
                a.receive_mbps
            } else if a.transmit_mbps.is_some() {
                a.transmit_mbps
            } else {
                a.link_mbps
            };
            push_row(rows, "Wi-Fi link speed", num_or_none(speed, " Mbps"));
            push_row(rows, "Wi-Fi radio standards", text_or_none(&a.radio_standards));
        },
    }
    assert(named_views(rows@) =~= before + wifi_rows(*w));
}

fn bluetooth_string(b: &Option<BluetoothReading>) -> (s: String)
    ensures
        s@ == bluetooth_text(*b),
{
    match b {
        None => owned(NONE_ENUMERATED),
        Some(a) => {
            let mut v: Vec<char> = Vec::new();
            match (&a.name, &a.state) {
                (Some(n), Some(st)) => {
                    append_str(&mut v, n.as_str());
                    append_str(&mut v, " (");
                    append_str(&mut v, st.as_str());
                    append_str(&mut v, ")");
                },
                (Some(n), None) => append_str(&mut v, n.as_str()),
                (None, Some(st)) => {
                    append_str(&mut v, "Present (");
                    append_str(&mut v, st.as_str());
                    append_str(&mut v, ")");
                },
                (None, None) => append_str(&mut v, "Present"),
            }
            assert(v@ =~= bluetooth_text(*b));
            string_of(&v)
        },
    }
}

fn ethernet_chars(a: &EthernetReading) -> (v: Vec<char>)
    ensures
        v@ == ethernet_text(*a),
{
    let mut v: Vec<char> = Vec::new();
    match &a.name {
        Some(n) => append_str(&mut v, n.as_str()),
        None => match &a.description {
            Some(d) => append_str(&mut v, d.as_str()),
            None => append_str(&mut v, "Ethernet"),
        },
    }
    match (&a.state, a.link_mbps) {
        (Some(s), Some(m)) => {
            append_str(&mut v, " (");
            append_str(&mut v, s.as_str());
            append_str(&mut v, ", ");
            push_dec(&mut v, m as u64);
            append_str(&mut v, " Mbps)");
        },
        (Some(s), None) => {
            append_str(&mut v, " (");
            append_str(&mut v, s.as_str());
            append_str(&mut v, ")");
        },
        (None, Some(m)) => {
            append_str(&mut v, " (");
            push_dec(&mut v, m as u64);
            append_str(&mut v, " Mbps)");
        },
        (None, None) => {},
    }
    assert(v@ =~= ethernet_text(*a));
    v
}

fn push_radio_rows(rows: &mut Vec<NamedValue>, r: &DisplayRadioProbe)
    ensures
        named_views(final(rows)@) == named_views(old(rows)@) + radio_rows(*r),
{
    let ghost before = named_views(rows@);
    if let Some(error) = r.probe_error {
        push_row(rows, "Wi-Fi signal quality", owned(error));
        push_row(rows, "Wi-Fi link speed", owned(error));
        push_row(rows, "Bluetooth radio", owned(error));
        push_row(rows, "Ethernet link", owned(error));
        assert(named_views(rows@) =~= before + radio_rows(*r));
        return;
    }
    push_wifi_rows(rows, &r.wifi);
    push_row(rows, "Bluetooth radio", bluetooth_string(&r.bluetooth));
    if r.ethernet.len() == 0 {
        push_row(rows, "Ethernet link", owned(NONE_ENUMERATED));
    } else {
        let mut parts: Vec<Vec<char>> = Vec::new();
        let mut i: usize = 0;
        while i < r.ethernet.len()
            invariant
                i <= r.ethernet@.len(),
                views(parts@) == r.ethernet@.take(i as int).map_values(
                    |a: EthernetReading| ethernet_text(a),
                ),
            decreases r.ethernet.len() - i,
        {
            let ghost prior = views(parts@);
            let t = ethernet_chars(&r.ethernet[i]);
            let ghost tv = t@;
            parts.push(t);
            proof {
                assert(views(parts@) =~= prior.push(tv));
                assert(r.ethernet@.take(i + 1) =~= r.ethernet@.take(i as int).push(r.ethernet@[i as int]));
            }
            i += 1;
            assert(views(parts@) =~= r.ethernet@.take(i as int).map_values(
                |a: EthernetReading| ethernet_text(a),
            ));
        }
        assert(r.ethernet@.take(r.ethernet@.len() as int) =~= r.ethernet@);
        let mut joined: Vec<char> = Vec::new();
        crate::report::push_joined(&mut joined, &parts, "; ");
        push_row(rows, "Ethernet link", string_of(&joined));
    }
    assert(named_views(rows@) =~= before + radio_rows(*r));
}

// ---- USB ----

/// Windows answered the USB controller class.
pub open spec fn usb_enumerated(p: UsbProbe) -> bool {
    p.probe_error is None && exists|i: int|
        0 <= i < p.sources@.len() && (#[trigger] p.sources@[i]).source == UsbSource::Controller
            && p.sources@[i].outcome == UsbOutcome::Reported
}

/// Why USB topology could not be read.
pub open spec fn usb_gap_text(p: UsbProbe) -> Seq<char> {
    if p.probe_error is Some {
        "The USB topology probe could not run on this PC"@
    } else {
        match usb_outcome_in(p.sources@, UsbSource::Controller) {
            UsbOutcome::PermissionDenied => "Windows refused the USB controller query on this account"@,
            UsbOutcome::Unsupported => "Windows does not expose USB controllers on this PC"@,
            UsbOutcome::CollectionError => "Windows returned an error for the USB controller query"@,
            UsbOutcome::NotQueried => "The USB controller query did not run"@,
            UsbOutcome::Reported => "USB controller topology was not collected in this scan"@,
        }
    }
}

/// Why USB topology could not be read, as Report D says it.
pub fn usb_gap(p: &UsbProbe) -> (r: &'static str)
    ensures
        r@ == usb_gap_text(*p),
{
    if p.probe_error.is_some() {
        return "The USB topology probe could not run on this PC";
    }
    match p.outcome_for(UsbSource::Controller) {
        UsbOutcome::PermissionDenied => "Windows refused the USB controller query on this account",
        UsbOutcome::Unsupported => "Windows does not expose USB controllers on this PC",
        UsbOutcome::CollectionError => "Windows returned an error for the USB controller query",
        UsbOutcome::NotQueried => "The USB controller query did not run",
        UsbOutcome::Reported => "USB controller topology was not collected in this scan",
    }
}

pub open spec fn named_list(items: Seq<UsbNamed>) -> Seq<char> {
    dec(items.len()) + " · "@ + join(items.map_values(|x: UsbNamed| x.name@), "; "@)
}

pub open spec fn controllers_text(p: UsbProbe) -> Seq<char> {
    if p.controllers@.len() == 0 {
        if usb_enumerated(p) {
            "Windows reported USB controllers but named none on this PC."@
        } else {
            "Not collected in this scan. "@ + usb_gap_text(p) + "."@
        }
    } else {
        named_list(p.controllers@)
    }
}

pub open spec fn hubs_text(p: UsbProbe) -> Seq<char> {
    if p.hubs@.len() == 0 {
        NONE_ENUMERATED@
    } else {
        named_list(p.hubs@)
    }
}

pub open spec fn device_text(d: UsbAttached) -> Seq<char> {
    let speed = match d.speed {
        Some(s) => s@,
        None => "speed not reported"@,
    };
    match d.port_index {
        Some(port) => d.name@ + " (port "@ + dec(port as nat) + ", "@ + speed + ")"@,
        None => d.name@ + " ("@ + speed + ")"@,
    }
}

pub open spec fn attached_text(p: UsbProbe) -> Seq<char> {
    if p.devices@.len() == 0 {
        "None attached at scan time. Empty plastic connectors are not visible to Windows."@
    } else {
        join(p.devices@.map_values(|d: UsbAttached| device_text(d)), "; "@)
    }
}

/// The negotiated-speed row: the distinct speeds devices report, in text
/// order and joined with commas, or that firmware reported none.
pub open spec fn speeds_described(p: UsbProbe, v: Seq<char>) -> bool {
    ||| (forall|i: int| 0 <= i < p.devices@.len() ==> (#[trigger] p.devices@[i]).speed is None)
        && v == NOT_REPORTED@
    ||| exists|q: Seq<Seq<char>>|
        strictly_ascending(q) && q.len() > 0 && (forall|s: Seq<char>|
            q.contains(s) <==> exists|i: int|
                0 <= i < p.devices@.len() && (#[trigger] opt_view(p.devices@[i].speed)) == Some(s))
            && v == join(q, ", "@)
}

/// The ports group's rows when the USB probe ran; `speeds` is the
/// negotiated-speed row.
pub open spec fn usb_rows(p: UsbProbe, r: DisplayRadioProbe, ports: Seq<char>, speeds: Seq<char>) -> Rows {
    seq![
        ("USB controllers"@, controllers_text(p)),
        ("USB hubs"@, hubs_text(p)),
        ("USB controller ports"@, attached_text(p)),
        ("Negotiated port speeds"@, speeds),
        ("Physically verified ports"@, ports),
    ] + radio_rows(r)
}

/// The ports group's rows when the USB probe could not run.
pub open spec fn usb_error_rows(e: Seq<char>, r: DisplayRadioProbe, ports: Seq<char>) -> Rows {
    seq![("USB probe"@, e), ("Physically verified ports"@, ports)] + radio_rows(r)
}

fn named_list_chars(items: &Vec<UsbNamed>) -> (v: Vec<char>)
    ensures
        v@ == named_list(items@),
{
    let mut parts: Vec<Vec<char>> = Vec::new();
    let mut i: usize = 0;
    while i < items.len()
        invariant
            i <= items@.len(),
            views(parts@) == items@.take(i as int).map_values(|x: UsbNamed| x.name@),
        decreases items.len() - i,
    {
        let ghost prior = views(parts@);
        let t = crate::text::chars_of(items[i].name.as_str());
        let ghost tv = t@;
        parts.push(t);
        proof {
            assert(views(parts@) =~= prior.push(tv));
            assert(items@.take(i + 1) =~= items@.take(i as int).push(items@[i as int]));
        }
        i += 1;
        assert(views(parts@) =~= items@.take(i as int).map_values(|x: UsbNamed| x.name@));
    }
    assert(items@.take(items@.len() as int) =~= items@);
    let mut v: Vec<char> = Vec::new();
    push_dec(&mut v, items.len() as u64);
    append_str(&mut v, " · ");
    crate::report::push_joined(&mut v, &parts, "; ");
    v
}

fn device_chars(d: &UsbAttached) -> (v: Vec<char>)
    ensures
        v@ == device_text(*d),
{
    let mut v: Vec<char> = Vec::new();
    append_str(&mut v, d.name.as_str());
    match d.port_index {
        Some(port) => {
            append_str(&mut v, " (port ");
            push_dec(&mut v, port as u64);
            append_str(&mut v, ", ");
        },
        None => append_str(&mut v, " ("),
    }
    match &d.speed {
        Some(s) => append_str(&mut v, s.as_str()),
        None => append_str(&mut v, "speed not reported"),
    }
    append_str(&mut v, ")");
    assert(v@ =~= device_text(*d));
    v
}

fn attached_string(p: &UsbProbe) -> (s: String)
    ensures
        s@ == attached_text(*p),
{
    if p.devices.len() == 0 {
        return owned("None attached at scan time. Empty plastic connectors are not visible to Windows.");
    }
    let mut parts: Vec<Vec<char>> = Vec::new();
    let mut i: usize = 0;
    while i < p.devices.len()
        invariant
            i <= p.devices@.len(),
            views(parts@) == p.devices@.take(i as int).map_values(|d: UsbAttached| device_text(d)),
        decreases p.devices.len() - i,
    {
        let ghost prior = views(parts@);
        let t = device_chars(&p.devices[i]);
        let ghost tv = t@;
        parts.push(t);
        proof {
            assert(views(parts@) =~= prior.push(tv));
            assert(p.devices@.take(i + 1) =~= p.devices@.take(i as int).push(p.devices@[i as int]));
        }
        i += 1;
        assert(views(parts@) =~= p.devices@.take(i as int).map_values(|d: UsbAttached| device_text(d)));
    }
    assert(p.devices@.take(p.devices@.len() as int) =~= p.devices@);
    let mut joined: Vec<char> = Vec::new();
    crate::report::push_joined(&mut joined, &parts, "; ");
    string_of(&joined)
}

/// Ports and connectivity, as Report D prints it. `physical_ports` is what
/// the technician recorded for physical insertion; controller topology is
/// never presented as a count of connectors.
pub fn usb_group(p: &UsbProbe, r: &DisplayRadioProbe, physical_ports: &str) -> (g: TelemetryGroup)
    ensures
        p.probe_error matches Some(e) ==> group_is(
            g,
            "Ports and connectivity"@,
            None,
            usb_error_rows(e@, *r, physical_ports@),
        ),
        p.probe_error is None ==> exists|speeds: Seq<char>|
            speeds_described(*p, speeds) && group_is(
                g,
                "Ports and connectivity"@,
                Some(
                    "Controller topology is not a count of plastic connectors. A port is confirmed only when a technician inserts a device. MAC addresses are never printed."@,
                ),
                usb_rows(*p, *r, physical_ports@, speeds),
            ),
{
    let mut rows: Vec<NamedValue> = Vec::new();
    if let Some(error) = p.probe_error {
        push_row(&mut rows, "USB probe", owned(error));
        push_row(&mut rows, "Physically verified ports", owned(physical_ports));
        push_radio_rows(&mut rows, r);
        assert(named_views(rows@) =~= usb_error_rows(error@, *r, physical_ports@));
        return TelemetryGroup { title: owned("Ports and connectivity"), note: None, rows };
    }
    let controllers = if p.controllers.len() == 0 {
        if p.topology_enumerated() {
            owned("Windows reported USB controllers but named none on this PC.")
        } else {
            let mut v: Vec<char> = Vec::new();
            append_str(&mut v, "Not collected in this scan. ");
            append_str(&mut v, usb_gap(p));
            append_str(&mut v, ".");
            string_of(&v)
        }
    } else {
        string_of(&named_list_chars(&p.controllers))
    };
    let hubs = if p.hubs.len() == 0 {
        owned(NONE_ENUMERATED)
    } else {
        string_of(&named_list_chars(&p.hubs))
    };
    push_row(&mut rows, "USB controllers", controllers);
    push_row(&mut rows, "USB hubs", hubs);
    push_row(&mut rows, "USB controller ports", attached_string(p));
    let summary = p.speed_summary();
    let speeds = match summary {
        Some(s) => s,
        None => owned(NOT_REPORTED),
    };
    let ghost sv = speeds@;
    assert(speeds_described(*p, sv));
    push_row(&mut rows, "Negotiated port speeds", speeds);
    push_row(&mut rows, "Physically verified ports", owned(physical_ports));
    push_radio_rows(&mut rows, r);
    assert(named_views(rows@) =~= usb_rows(*p, *r, physical_ports@, sv));
    TelemetryGroup {
        title: owned("Ports and connectivity"),
        note: Some(
            owned(
                "Controller topology is not a count of plastic connectors. A port is confirmed only when a technician inserts a device. MAC addresses are never printed.",
            ),
        ),
        rows,
    }
}

// ---- display ----

/// The rows printed when the display could not be read.
pub open spec fn unread_display_rows() -> Rows {
    seq![
        ("Panel manufacturer"@, NOT_COLLECTED@),
        ("Panel model"@, NOT_COLLECTED@),
        ("Native resolution"@, NOT_COLLECTED@),
        ("Refresh rate"@, NOT_COLLECTED@),
        ("HDR capability"@, NOT_COLLECTED@),
        ("Panel manufacture year"@, NOT_COLLECTED@),
    ]
}

pub open spec fn resolution_text(w: Option<u32>, h: Option<u32>, suffix: Seq<char>) -> Option<Seq<char>> {
    match (w, h) {
        (Some(a), Some(b)) => Some(dec(a as nat) + " × "@ + dec(b as nat) + suffix),
        _ => None,
    }
}

pub open spec fn panel_name(panel: PanelReading) -> Seq<char> {
    match panel.name {
        Some(n) => n@,
        None => match panel.manufacturer {
            Some(m) => m@,
            None => "Display panel"@,
        },
    }
}

/// The display group's rows.
pub open spec fn display_rows(r: DisplayRadioProbe) -> Rows {
    match r.probe_error {
        Some(e) => seq![("Display probe"@, e@)] + unread_display_rows(),
        None => if r.panels@.len() == 0 {
            seq![("Display panel"@, "Not collected in this scan. Windows did not name a panel in this scan."@)]
                + unread_display_rows()
        } else {
            let panel = r.panels@[0];
            seq![
                ("Display panel"@, panel_name(panel)),
                ("Panel manufacturer"@, or_missing(opt_view(panel.manufacturer))),
                ("Panel model"@, or_missing(opt_view(panel.name))),
                (
                    "Native resolution"@,
                    or_missing(resolution_text(panel.native_width, panel.native_height, " (EDID preferred timing)"@)),
                ),
                (
                    "Current desktop mode"@,
                    or_missing(
                        resolution_text(panel.current_width, panel.current_height, " (current mode, not native)"@),
                    ),
                ),
                ("Refresh rate"@, or_missing(num_text(widen(panel.refresh_hz), " Hz (current desktop mode)"@))),
                (
                    "HDR capability"@,
                    "Not collected in this scan. HDR is not inferred from the current desktop colour profile."@,
                ),
                ("Panel manufacture year"@, or_missing(num_text(widen(panel.manufacture_year), ""@))),
                ("Panel serial number"@, or_missing(opt_view(panel.serial_number))),
            ]
        },
    }
}

fn push_unread_display(rows: &mut Vec<NamedValue>)
    ensures
        named_views(final(rows)@) == named_views(old(rows)@) + unread_display_rows(),
{
    let ghost before = named_views(rows@);
    push_row(rows, "Panel manufacturer", owned(NOT_COLLECTED));
    push_row(rows, "Panel model", owned(NOT_COLLECTED));
    push_row(rows, "Native resolution", owned(NOT_COLLECTED));
    push_row(rows, "Refresh rate", owned(NOT_COLLECTED));
    push_row(rows, "HDR capability", owned(NOT_COLLECTED));
    push_row(rows, "Panel manufacture year", owned(NOT_COLLECTED));
    assert(named_views(rows@) =~= before + unread_display_rows());
}

fn resolution_string(w: Option<u32>, h: Option<u32>, suffix: &str) -> (s: Option<String>)
    ensures
        opt_view(s) == resolution_text(w, h, suffix@),
{
    match (w, h) {
        (Some(a), Some(b)) => {
            let mut v: Vec<char> = Vec::new();
            push_dec(&mut v, a as u64);
            append_str(&mut v, " × ");
            push_dec(&mut v, b as u64);
            append_str(&mut v, suffix);
            Some(string_of(&v))
        },
        _ => None,
    }
}

/// The display panel, as Report D prints it: native resolution from the
/// EDID preferred timing, kept apart from the current desktop mode.
pub fn display_group(r: &DisplayRadioProbe) -> (g: TelemetryGroup)
    ensures
        group_is(
            g,
            "Display panel"@,
            if r.probe_error is None && r.panels@.len() > 0 {
                Some(
                    "Native resolution is the EDID preferred timing. Colour-wash points are operator-attested and are not inferred from EDID."@,
                )
            } else {
                None
            },
            display_rows(*r),
        ),
{
    let mut rows: Vec<NamedValue> = Vec::new();
    if let Some(error) = r.probe_error {
        push_row(&mut rows, "Display probe", owned(error));
        push_unread_display(&mut rows);
        assert(named_views(rows@) =~= display_rows(*r));
        return TelemetryGroup { title: owned("Display panel"), note: None, rows };
    }
    if r.panels.len() == 0 {
        push_row(
            &mut rows,
            "Display panel",
            owned("Not collected in this scan. Windows did not name a panel in this scan."),
        );
        push_unread_display(&mut rows);
        assert(named_views(rows@) =~= display_rows(*r));
        return TelemetryGroup { title: owned("Display panel"), note: None, rows };
    }
    let panel = &r.panels[0];
    push_row(&mut rows, "Display panel", panel.display_name());
    push_optional(&mut rows, "Panel manufacturer", clone_text(&panel.manufacturer));
    push_optional(&mut rows, "Panel model", clone_text(&panel.name));
    push_optional(
        &mut rows,
        "Native resolution",
        resolution_string(panel.native_width, panel.native_height, " (EDID preferred timing)"),
    );
    push_optional(
        &mut rows,
        "Current desktop mode",
        resolution_string(panel.current_width, panel.current_height, " (current mode, not native)"),
    );
    push_optional(
        &mut rows,
        "Refresh rate",
        num_string(widen_exec(panel.refresh_hz), " Hz (current desktop mode)"),
    );
    push_row(
        &mut rows,
        "HDR capability",
        owned("Not collected in this scan. HDR is not inferred from the current desktop colour profile."),
    );
    push_optional(&mut rows, "Panel manufacture year", num_string(widen_exec(panel.manufacture_year), ""));
    push_optional(&mut rows, "Panel serial number", clone_text(&panel.serial_number));
    assert(named_views(rows@) =~= display_rows(*r));
    TelemetryGroup {
        title: owned("Display panel"),
        note: Some(
            owned(
                "Native resolution is the EDID preferred timing. Colour-wash points are operator-attested and are not inferred from EDID.",
            ),
        ),
        rows,
    }
}

// ---- sources consulted ----

pub open spec fn is_radio_source(s: DisplayRadioSource) -> bool {
    s == DisplayRadioSource::Wifi || s == DisplayRadioSource::Bluetooth || s == DisplayRadioSource::Ethernet
}

/// The statuses whose source satisfies `radio` (radio sources) or its
/// opposite (display sources), each with the answer it gave.
pub open spec fn display_radio_source_rows(sources: Seq<RadioStatus>, radio: bool) -> Rows
    decreases sources.len(),
{
    if sources.len() == 0 {
        Seq::empty()
    } else {
        let before = display_radio_source_rows(sources.drop_last(), radio);
        let s = sources.last();
        if is_radio_source(s.source) == radio {
            before.push((s.source.label_text(), s.outcome.customer_text()))
        } else {
            before
        }
    }
}

fn display_radio_sources_group(r: &DisplayRadioProbe, radio: bool, title: &str, note: &str) -> (g: TelemetryGroup)
    ensures
        group_is(g, title@, Some(note@), display_radio_source_rows(r.sources@, radio)),
{
    let mut rows: Vec<NamedValue> = Vec::new();
    let mut i: usize = 0;
    while i < r.sources.len()
        invariant
            i <= r.sources@.len(),
            named_views(rows@) == display_radio_source_rows(r.sources@.take(i as int), radio),
        decreases r.sources.len() - i,
    {
        let s = r.sources[i];
        assert(r.sources@.take(i + 1).drop_last() =~= r.sources@.take(i as int));
        let is_radio = s.source == DisplayRadioSource::Wifi || s.source == DisplayRadioSource::Bluetooth
            || s.source == DisplayRadioSource::Ethernet;
        if is_radio == radio {
            push_row(&mut rows, s.source.label(), owned(s.outcome.customer_label()));
        }
        i += 1;
    }
    assert(r.sources@.take(i as int) =~= r.sources@);
    TelemetryGroup { title: owned(title), note: Some(owned(note)), rows }
}

/// The Wi-Fi, Bluetooth and Ethernet sources Advance scan asked.
pub fn radio_source_group(r: &DisplayRadioProbe) -> (g: TelemetryGroup)
    ensures
        group_is(
            g,
            "Radio sources consulted"@,
            Some(
                "Advance scan asks Windows for Wi-Fi, Bluetooth and Ethernet adapters. MAC addresses are dropped before they can be printed."@,
            ),
            display_radio_source_rows(r.sources@, true),
        ),
{
    display_radio_sources_group(
        r,
        true,
        "Radio sources consulted",
        "Advance scan asks Windows for Wi-Fi, Bluetooth and Ethernet adapters. MAC addresses are dropped before they can be printed.",
    )
}

/// The panel, EDID and video-controller sources Advance scan asked.
pub fn display_source_group(r: &DisplayRadioProbe) -> (g: TelemetryGroup)
    ensures
        group_is(
            g,
            "Display sources consulted"@,
            Some(
                "Advance scan reads monitor identity and the first 128 bytes of EDID. Native resolution is the preferred timing, not the current desktop mode."@,
            ),
            display_radio_source_rows(r.sources@, false),
        ),
{
    display_radio_sources_group(
        r,
        false,
        "Display sources consulted",
        "Advance scan reads monitor identity and the first 128 bytes of EDID. Native resolution is the preferred timing, not the current desktop mode.",
    )
}

pub open spec fn usb_source_rows(p: UsbProbe) -> Rows {
    p.sources@.map_values(
        |s: crate::usb_topology::SourceStatus| (s.source.label_text(), s.outcome.customer_text()),
    )
}

/// The USB sources Advance scan asked.
pub fn usb_source_group(p: &UsbProbe) -> (g: TelemetryGroup)
    ensures
        group_is(
            g,
            "USB sources consulted"@,
            Some(
                "Advance scan walks USB controllers, hubs and attached devices. It does not guess empty sockets from SMBIOS labels."@,
            ),
            usb_source_rows(*p),
        ),
{
    let mut rows: Vec<NamedValue> = Vec::new();
    let mut i: usize = 0;
    while i < p.sources.len()
        invariant
            i <= p.sources@.len(),
            named_views(rows@) == usb_source_rows(*p).take(i as int),
        decreases p.sources.len() - i,
    {
        let s = p.sources[i];
        push_row(&mut rows, s.source.label(), owned(s.outcome.customer_label()));
        assert(usb_source_rows(*p).take(i + 1) =~= usb_source_rows(*p).take(i as int).push(
            usb_source_rows(*p)[i as int],
        ));
        i += 1;
    }
    assert(usb_source_rows(*p).take(i as int) =~= usb_source_rows(*p));
    TelemetryGroup {
        title: owned("USB sources consulted"),
        note: Some(
            owned(
                "Advance scan walks USB controllers, hubs and attached devices. It does not guess empty sockets from SMBIOS labels.",
            ),
        ),
        rows,
    }
}

// ---- capture ----

pub const NOT_ATTEMPTED: &'static str = "Not attempted in this scan. A technician records this at physical verification.";

pub open spec fn yes_no(b: bool) -> Seq<char> {
    if b {
        "Yes"@
    } else {
        "No"@
    }
}

pub open spec fn cameras_text(p: CaptureProbe) -> Seq<char> {
    if device_names(p.cameras@).len() == 0 {
        if p.cameras@.len() == 0 && p.probe_error is None && answered(
            p.sources@,
            CaptureSource::CameraClass,
            CaptureSource::UsbVideo,
        ) {
            "None enumerated by Windows after querying Camera, Image and USB video classes."@
        } else {
            "Not collected in this scan. The camera query did not complete."@
        }
    } else {
        join(device_names(p.cameras@), "; "@)
    }
}

pub open spec fn microphones_text(p: CaptureProbe) -> Seq<char> {
    if device_names(p.microphones@).len() == 0 {
        if p.microphones@.len() == 0 && p.probe_error is None && answered(
            p.sources@,
            CaptureSource::AudioEndpoint,
            CaptureSource::SoundDevice,
        ) {
            "None enumerated by Windows after querying audio endpoints and sound devices."@
        } else {
            "Not collected in this scan. The microphone query did not complete."@
        }
    } else {
        join(device_names(p.microphones@), "; "@)
    }
}

/// `q` is the set of classes that enumerated a camera, in text order.
pub open spec fn camera_classes(p: CaptureProbe, q: Seq<Seq<char>>) -> bool {
    strictly_ascending(q) && forall|s: Seq<char>|
        q.contains(s) <==> exists|i: int|
            0 <= i < p.cameras@.len() && (#[trigger] opt_view(p.cameras@[i].enumerated_by)) == Some(s)
}

/// The capture group's rows when the probe ran; `via` is the joined list of
/// classes that enumerated a camera, printed only when not empty.
pub open spec fn capture_rows(p: CaptureProbe, via: Seq<char>) -> Rows {
    seq![("Cameras"@, cameras_text(p))] + (if via.len() > 0 {
        seq![("Camera enumerated by"@, via)]
    } else {
        Seq::empty()
    }) + seq![
        ("Microphones"@, microphones_text(p)),
        ("Frames captured"@, yes_no(p.frames_captured)),
        ("Audio recorded"@, yes_no(p.audio_recorded)),
        ("Camera image"@, NOT_ATTEMPTED@),
    ]
}

pub open spec fn capture_error_rows(e: Seq<char>) -> Rows {
    seq![("Capture probe"@, e), ("Frames captured"@, "No"@), ("Audio recorded"@, "No"@)]
}

fn joined_strings(names: &Vec<String>) -> (s: String)
    ensures
        s@ == join(string_views(names@), "; "@),
{
    let mut parts: Vec<Vec<char>> = Vec::new();
    let mut i: usize = 0;
    while i < names.len()
        invariant
            i <= names@.len(),
            views(parts@) == string_views(names@).take(i as int),
        decreases names.len() - i,
    {
        let t = crate::text::chars_of(names[i].as_str());
        let ghost prior = views(parts@);
        let ghost tv = t@;
        parts.push(t);
        assert(views(parts@) =~= prior.push(tv));
        assert(string_views(names@).take(i + 1) =~= string_views(names@).take(i as int).push(names@[i as int]@));
        i += 1;
    }
    assert(string_views(names@).take(i as int) =~= string_views(names@));
    let mut v: Vec<char> = Vec::new();
    crate::report::push_joined(&mut v, &parts, "; ");
    string_of(&v)
}

fn yes_no_string(b: bool) -> (s: String)
    ensures
        s@ == yes_no(b),
{
    if b {
        owned("Yes")
    } else {
        owned("No")
    }
}

fn camera_classes_joined(p: &CaptureProbe) -> (r: (Vec<char>, Ghost<Seq<Seq<char>>>))
    ensures
        camera_classes(*p, r.1@),
        r.0@ == join(r.1@, "; "@),
{
    let mut sorted: Vec<Vec<char>> = Vec::new();
    let mut i: usize = 0;
    while i < p.cameras.len()
        invariant
            i <= p.cameras@.len(),
            strictly_ascending(views(sorted@)),
            forall|s: Seq<char>|
                views(sorted@).contains(s) <==> exists|k: int|
                    0 <= k < i && (#[trigger] opt_view(p.cameras@[k].enumerated_by)) == Some(s),
        decreases p.cameras.len() - i,
    {
        let ghost before = views(sorted@);
        match &p.cameras[i].enumerated_by {
            Some(by) => crate::usb_topology::insert_sorted(&mut sorted, crate::text::chars_of(by.as_str())),
            None => {},
        }
        proof {
            assert forall|s: Seq<char>|
                views(sorted@).contains(s) <==> exists|k: int|
                    0 <= k < i + 1 && (#[trigger] opt_view(p.cameras@[k].enumerated_by)) == Some(s) by {
                if opt_view(p.cameras@[i as int].enumerated_by) == Some(s) {
                    assert(0 <= i < i + 1);
                }
                if exists|k: int| 0 <= k < i + 1 && (#[trigger] opt_view(p.cameras@[k].enumerated_by)) == Some(s) {
                    let k = choose|k: int|
                        0 <= k < i + 1 && (#[trigger] opt_view(p.cameras@[k].enumerated_by)) == Some(s);
                    if k < i {
                        assert(before.contains(s));
                    }
                }
            }
        }
        i += 1;
    }
    let mut v: Vec<char> = Vec::new();
    crate::report::push_joined(&mut v, &sorted, "; ");
    (v, Ghost(views(sorted@)))
}

/// Cameras and microphones, as Report D prints it: enumeration only, no
/// frame captured and no audio recorded.
pub fn capture_group(p: &CaptureProbe) -> (g: TelemetryGroup)
    ensures
        p.probe_error matches Some(e) ==> group_is(g, "Cameras and microphones"@, None, capture_error_rows(e@)),
        p.probe_error is None ==> exists|q: Seq<Seq<char>>|
            camera_classes(*p, q) && group_is(
                g,
                "Cameras and microphones"@,
                Some(
                    "Enumeration only. No webcam frame is captured and no microphone audio is recorded in this slice."@,
                ),
                capture_rows(*p, join(q, "; "@)),
            ),
{
    let mut rows: Vec<NamedValue> = Vec::new();
    if let Some(error) = p.probe_error {
        push_row(&mut rows, "Capture probe", owned(error));
        push_row(&mut rows, "Frames captured", owned("No"));
        push_row(&mut rows, "Audio recorded", owned("No"));
        assert(named_views(rows@) =~= capture_error_rows(error@));
        return TelemetryGroup { title: owned("Cameras and microphones"), note: None, rows };
    }
    let camera_names = p.camera_names();
    assert(string_views(camera_names@) =~= device_names(p.cameras@));
    let cameras = if camera_names.len() == 0 {
        if p.reports_no_cameras() {
            owned("None enumerated by Windows after querying Camera, Image and USB video classes.")
        } else {
            owned("Not collected in this scan. The camera query did not complete.")
        }
    } else {
        joined_strings(&camera_names)
    };
    let mic_names = p.microphone_names();
    assert(string_views(mic_names@) =~= device_names(p.microphones@));
    let microphones = if mic_names.len() == 0 {
        if p.reports_no_microphones() {
            owned("None enumerated by Windows after querying audio endpoints and sound devices.")
        } else {
            owned("Not collected in this scan. The microphone query did not complete.")
        }
    } else {
        joined_strings(&mic_names)
    };
    let (via, Ghost(q)) = camera_classes_joined(p);
    let ghost vv = via@;
    push_row(&mut rows, "Cameras", cameras);
    if via.len() > 0 {
        push_row(&mut rows, "Camera enumerated by", string_of(&via));
    }
    push_row(&mut rows, "Microphones", microphones);
    push_row(&mut rows, "Frames captured", yes_no_string(p.frames_captured));
    push_row(&mut rows, "Audio recorded", yes_no_string(p.audio_recorded));
    push_row(&mut rows, "Camera image", owned(NOT_ATTEMPTED));
    assert(named_views(rows@) =~= capture_rows(*p, vv));
    TelemetryGroup {
        title: owned("Cameras and microphones"),
        note: Some(
            owned(
                "Enumeration only. No webcam frame is captured and no microphone audio is recorded in this slice.",
            ),
        ),
        rows,
    }
}

pub open spec fn capture_source_rows(p: CaptureProbe) -> Rows {
    p.sources@.map_values(
        |s: crate::capture_probe::SourceStatus| (s.source.label_text(), s.outcome.customer_text()),
    )
}

/// The capture sources Advance scan asked, including the USB video service
/// the Camera class alone misses.
pub fn capture_source_group(p: &CaptureProbe) -> (g: TelemetryGroup)
    ensures
        group_is(
            g,
            "Capture sources consulted"@,
            Some(
                "The Camera ClassGuid alone misses some UVC webcams, so Advance scan also asks the USB video service and Image class."@,
            ),
            capture_source_rows(*p),
        ),
{
    let mut rows: Vec<NamedValue> = Vec::new();
    let mut i: usize = 0;
    while i < p.sources.len()
        invariant
            i <= p.sources@.len(),
            named_views(rows@) == capture_source_rows(*p).take(i as int),
        decreases p.sources.len() - i,
    {
        let s = p.sources[i];
        push_row(&mut rows, s.source.label(), owned(s.outcome.customer_label()));
        assert(capture_source_rows(*p).take(i + 1) =~= capture_source_rows(*p).take(i as int).push(
            capture_source_rows(*p)[i as int],
        ));
        i += 1;
    }
    assert(capture_source_rows(*p).take(i as int) =~= capture_source_rows(*p));
    TelemetryGroup {
        title: owned("Capture sources consulted"),
        note: Some(
            owned(
                "The Camera ClassGuid alone misses some UVC webcams, so Advance scan also asks the USB video service and Image class.",
            ),
        ),
        rows,
    }
}

} // verus!
