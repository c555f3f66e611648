//! The customer verification screen: hardware rows, where personal data
//! appears to live, and what the local assessment concluded.

use vstd::prelude::*;
use crate::personal_data::DataLocation;
use crate::storage::StorageProfile;
use crate::text::{
    append_str, chars_of, eq_str, is_ascii_alnum, lex_less, lex_lt, lower, lower_char, owned, seq_eq,
    string_of, trim, trim_vec,
};
use crate::usb_topology::strictly_ascending;
use crate::NamedValue;

verus! {

pub open spec fn named_view(v: NamedValue) -> (Seq<char>, Seq<char>) {
    (v.label@, v.value@)
}

pub open spec fn named_views(vs: Seq<NamedValue>) -> Seq<(Seq<char>, Seq<char>)> {
    vs.map_values(|v: NamedValue| named_view(v))
}

pub open spec fn has_label(vs: Seq<NamedValue>, label: Seq<char>) -> bool {
    exists|i: int| 0 <= i < vs.len() && (#[trigger] vs[i]).label@ == label
}

fn find_label(fields: &Vec<NamedValue>, label: &str) -> (r: Option<usize>)
    ensures
        match r {
            Some(i) => i < fields@.len() && fields@[i as int].label@ == label@ && forall|k: int|
                0 <= k < i ==> (#[trigger] fields@[k]).label@ != label@,
            None => !has_label(fields@, label@),
        },
{
    let l = chars_of(label);
    let mut i: usize = 0;
    while i < fields.len()
        invariant
            i <= fields@.len(),
            l@ == label@,
            forall|k: int| 0 <= k < i ==> (#[trigger] fields@[k]).label@ != label@,
        decreases fields.len() - i,
    {
        if seq_eq(&chars_of(fields[i].label.as_str()), &l) {
            return Some(i);
        }
        i += 1;
    }
    None
}

/// The rows with (label, value) put first, unless the value is blank or
/// `unknown` or the label is already there.
pub open spec fn prepended(rows: Seq<(Seq<char>, Seq<char>)>, label: Seq<char>, value: Seq<char>) -> Seq<(Seq<char>, Seq<char>)> {
    if value.len() == 0 || value == "unknown"@ || has_label_view(rows, label) {
        rows
    } else {
        seq![(label, value)] + rows
    }
}

pub fn prepend_field(fields: &mut Vec<NamedValue>, label: &str, value: String)
    ensures
        named_views(final(fields)@) == prepended(named_views(old(fields)@), label@, value@),
{
    proof {
        let vs = named_views(fields@);
        if has_label_view(vs, label@) {
            let k = choose|k: int| 0 <= k < vs.len() && (#[trigger] vs[k]).0 == label@;
            assert(fields@[k].label@ == label@);
        }
        if has_label(fields@, label@) {
            let k = choose|k: int| 0 <= k < fields@.len() && (#[trigger] fields@[k]).label@ == label@;
            assert(vs[k].0 == label@);
        }
    }
    let v = chars_of(value.as_str());
    if v.len() == 0 || eq_str(&v, "unknown") {
        return;
    }
    if find_label(fields, label).is_some() {
        return;
    }
    let ghost before = named_views(fields@);
    let ghost vv = value@;
    fields.insert(0, NamedValue { label: owned(label), value });
    assert(named_views(fields@) =~= seq![(label@, vv)] + before);
}

/// What firmware writes when it has no real serial: nothing, all zeros,
/// or a placeholder, compared on letters and digits only, without case.
pub open spec fn compact(s: Seq<char>) -> Seq<char> {
    s.filter(|c: char| is_ascii_alnum(c)).map_values(|c: char| lower(c))
}

pub open spec fn missing_serial(value: Seq<char>) -> bool {
    let c = compact(value);
    c.len() == 0 || (forall|i: int| 0 <= i < c.len() ==> c[i] == '0') || c == "unknown"@ || c == "tobefilledbyoem"@
        || c == "defaultstring"@ || c == "systemserialnumber"@ || c == "none"@ || c == "na"@
}

pub fn looks_like_missing_serial(value: &str) -> (r: bool)
    ensures
        r == missing_serial(value@),
{
    let v = chars_of(value);
    let mut c: Vec<char> = Vec::new();
    let mut i: usize = 0;
    while i < v.len()
        invariant
            i <= v@.len(),
            v@ == value@,
            c@ == compact(v@.take(i as int)),
        decreases v.len() - i,
    {
        let ch = v[i];
        assert(v@.take(i + 1).drop_last() =~= v@.take(i as int));
        reveal_with_fuel(Seq::<_>::filter, 1);
        if ('0' <= ch && ch <= '9') || ('a' <= ch && ch <= 'z') || ('A' <= ch && ch <= 'Z') {
            let ghost before = c@;
            c.push(lower_char(ch));
            assert(v@.take(i + 1).filter(|c: char| is_ascii_alnum(c)) =~= v@.take(i as int).filter(
                |c: char| is_ascii_alnum(c),
            ).push(ch));
            assert(c@ =~= compact(v@.take(i + 1)));
        } else {
            assert(v@.take(i + 1).filter(|c: char| is_ascii_alnum(c)) =~= v@.take(i as int).filter(
                |c: char| is_ascii_alnum(c),
            ));
            assert(c@ =~= compact(v@.take(i + 1)));
        }
        i += 1;
    }
    assert(v@.take(v@.len() as int) =~= v@);
    let mut zeros = true;
    let mut k: usize = 0;
    while k < c.len()
        invariant
            k <= c@.len(),
            zeros == forall|j: int| 0 <= j < k ==> c@[j] == '0',
        decreases c.len() - k,
    {
        if c[k] != '0' {
            zeros = false;
        }
        k += 1;
    }
    c.len() == 0 || zeros || eq_str(&c, "unknown") || eq_str(&c, "tobefilledbyoem") || eq_str(&c, "defaultstring")
        || eq_str(&c, "systemserialnumber") || eq_str(&c, "none") || eq_str(&c, "na")
}

pub const BIOS_SERIAL_LABEL: &'static str = "BIOS / OEM serial";

pub const FIRMWARE_NOT_REPORTED: &'static str = "Not reported by firmware";

/// The rows after the operating system's serial fills the first BIOS serial
/// row when firmware did not report one, or is added when there is no such
/// row. A missing or placeholder serial changes nothing.
pub open spec fn overlaid(rows: Seq<(Seq<char>, Seq<char>)>, serial: Seq<char>) -> Seq<(Seq<char>, Seq<char>)> {
    let s = trim(serial);
    if missing_serial(s) {
        rows
    } else if has_label_view(rows, BIOS_SERIAL_LABEL@) {
        let i = choose|i: int| 0 <= i < rows.len() && (#[trigger] rows[i]).0 == BIOS_SERIAL_LABEL@
            && forall|k: int| 0 <= k < i ==> (#[trigger] rows[k]).0 != BIOS_SERIAL_LABEL@;
        if rows[i].1 == FIRMWARE_NOT_REPORTED@ {
            rows.update(i, (BIOS_SERIAL_LABEL@, s))
        } else {
            rows
        }
    } else {
        rows.push((BIOS_SERIAL_LABEL@, s))
    }
}

pub fn overlay_bios_serial_from_device(fields: &mut Vec<NamedValue>, serial: &str)
    ensures
        named_views(final(fields)@) == overlaid(named_views(old(fields)@), serial@),
{
    let s = trim_vec(&chars_of(serial));
    let st = string_of(&s);
    if looks_like_missing_serial(st.as_str()) {
        return;
    }
    let ghost before = fields@;
    let ghost bv = named_views(before);
    match find_label(fields, BIOS_SERIAL_LABEL) {
        Some(i) => {
            proof {
                assert(0 <= i < bv.len() && (#[trigger] bv[i as int]).0 == BIOS_SERIAL_LABEL@
                    && forall|k: int| 0 <= k < i ==> (#[trigger] bv[k]).0 != BIOS_SERIAL_LABEL@) by {
                    assert forall|k: int| 0 <= k < i implies (#[trigger] bv[k]).0 != BIOS_SERIAL_LABEL@ by {
                        assert(before[k].label@ != BIOS_SERIAL_LABEL@);
                    }
                }
                let j = choose|j: int| 0 <= j < bv.len() && (#[trigger] bv[j]).0 == BIOS_SERIAL_LABEL@
                    && forall|k: int| 0 <= k < j ==> (#[trigger] bv[k]).0 != BIOS_SERIAL_LABEL@;
                assert(j == i) by {
                    if j < i {
                        assert(bv[j].0 != BIOS_SERIAL_LABEL@);
                    }
                    if i < j {
                        assert(bv[i as int].0 != BIOS_SERIAL_LABEL@);
                    }
                }
            }
            if eq_str(&chars_of(fields[i].value.as_str()), FIRMWARE_NOT_REPORTED) {
                let label = fields[i].label.clone();
                fields.set(i, NamedValue { label, value: st });
                assert(named_views(fields@) =~= named_views(before).update(i as int, (BIOS_SERIAL_LABEL@, s@)));
            }
        },
        None => {
            proof {
                if has_label_view(bv, BIOS_SERIAL_LABEL@) {
                    let k = choose|k: int| 0 <= k < bv.len() && (#[trigger] bv[k]).0 == BIOS_SERIAL_LABEL@;
                    assert(before[k].label@ == BIOS_SERIAL_LABEL@);
                }
            }
            fields.push(NamedValue { label: owned(BIOS_SERIAL_LABEL), value: st });
            assert(named_views(fields@) =~= named_views(before).push((BIOS_SERIAL_LABEL@, s@)));
        },
    }
}

pub open spec fn has_label_view(vs: Seq<(Seq<char>, Seq<char>)>, label: Seq<char>) -> bool {
    exists|i: int| 0 <= i < vs.len() && (#[trigger] vs[i]).0 == label
}

pub open spec fn disk_label(index: u32) -> Seq<char> {
    "Disk "@ + crate::numtext::dec(index as nat) + " serial"@
}

/// The rows after each disk with a real serial and no row yet is added as
/// `Disk N serial`, in disk order.
pub open spec fn with_disk_serials(
    rows: Seq<(Seq<char>, Seq<char>)>,
    disks: Seq<crate::storage::PhysicalDisk>,
) -> Seq<(Seq<char>, Seq<char>)>
    decreases disks.len(),
{
    if disks.len() == 0 {
        rows
    } else {
        let before = with_disk_serials(rows, disks.drop_last());
        let d = disks.last();
        if missing_serial(d.serial_number@) || has_label_view(before, disk_label(d.index)) {
            before
        } else {
            before.push((disk_label(d.index), trim(d.serial_number@)))
        }
    }
}

pub fn append_disk_serials(fields: &mut Vec<NamedValue>, storage: &StorageProfile)
    ensures
        named_views(final(fields)@) == with_disk_serials(named_views(old(fields)@), storage.disks@),
{
    let ghost start = named_views(fields@);
    let disks = &storage.disks;
    let mut i: usize = 0;
    while i < disks.len()
        invariant
            i <= disks@.len(),
            named_views(fields@) == with_disk_serials(start, disks@.take(i as int)),
        decreases disks.len() - i,
    {
        let ghost before = named_views(fields@);
        let d = &disks[i];
        assert(disks@.take(i + 1).drop_last() =~= disks@.take(i as int));
        if !looks_like_missing_serial(d.serial_number.as_str()) {
            let mut label = chars_of("Disk ");
            crate::numtext::push_dec(&mut label, d.index as u64);
            append_str(&mut label, " serial");
            let ls = string_of(&label);
            match find_label(fields, ls.as_str()) {
                Some(k) => {
                    assert(before[k as int].0 == label@);
                },
                None => {
                    proof {
                        if has_label_view(before, label@) {
                            let k = choose|k: int| 0 <= k < before.len() && (#[trigger] before[k]).0 == label@;
                            assert(fields@[k].label@ == label@);
                        }
                    }
                    let value = string_of(&trim_vec(&chars_of(d.serial_number.as_str())));
                    let ghost vv = value@;
                    fields.push(NamedValue { label: ls, value });
                    assert(named_views(fields@) =~= before.push((label@, vv)));
                },
            }
        }
        i += 1;
    }
    assert(disks@.take(disks@.len() as int) =~= disks@);
}

/// How a personal-data category is named on screen.
pub open spec fn friendly(category: Seq<char>) -> Seq<char> {
    if category == "document"@ {
        "Documents"@
    } else if category == "pdf"@ {
        "PDF files"@
    } else if category == "spreadsheet"@ {
        "Spreadsheets"@
    } else if category == "presentation"@ {
        "Presentations"@
    } else if category == "image"@ {
        "Pictures"@
    } else if category == "video"@ {
        "Videos"@
    } else if category == "audio"@ {
        "Audio files"@
    } else if category == "archive"@ {
        "Archives"@
    } else if category == "email"@ {
        "Email stores"@
    } else if category == "database"@ {
        "Databases"@
    } else if category == "backup"@ {
        "Backup files"@
    } else {
        category.map_values(|c: char| if c == '_' { ' ' } else { c })
    }
}

pub fn friendly_category(category: &str) -> (name: String)
    ensures
        name@ == friendly(category@),
{
    let c = chars_of(category);
    if eq_str(&c, "document") {
        owned("Documents")
    } else if eq_str(&c, "pdf") {
        owned("PDF files")
    } else if eq_str(&c, "spreadsheet") {
        owned("Spreadsheets")
    } else if eq_str(&c, "presentation") {
        owned("Presentations")
    } else if eq_str(&c, "image") {
        owned("Pictures")
    } else if eq_str(&c, "video") {
        owned("Videos")
    } else if eq_str(&c, "audio") {
        owned("Audio files")
    } else if eq_str(&c, "archive") {
        owned("Archives")
    } else if eq_str(&c, "email") {
        owned("Email stores")
    } else if eq_str(&c, "database") {
        owned("Databases")
    } else if eq_str(&c, "backup") {
        owned("Backup files")
    } else {
        let mut out: Vec<char> = Vec::new();
        let mut i: usize = 0;
        while i < c.len()
            invariant
                i <= c@.len(),
                out@ == c@.take(i as int).map_values(|c: char| if c == '_' { ' ' } else { c }),
            decreases c.len() - i,
        {
            out.push(
                if c[i] == '_' {
                    ' '
                } else {
                    c[i]
                },
            );
            i += 1;
            assert(out@ =~= c@.take(i as int).map_values(|c: char| if c == '_' { ' ' } else { c }));
        }
        assert(c@.take(c@.len() as int) =~= c@);
        string_of(&out)
    }
}

/// The files counted under one on-screen category.
pub open spec fn label_total(locations: Seq<DataLocation>, label: Seq<char>) -> nat
    decreases locations.len(),
{
    if locations.len() == 0 {
        0
    } else {
        label_total(locations.drop_last(), label) + if friendly(locations.last().category@) == label {
            locations.last().file_count as nat
        } else {
            0
        }
    }
}

pub open spec fn has_category(locations: Seq<DataLocation>, label: Seq<char>) -> bool {
    exists|j: int| 0 <= j < locations.len() && friendly((#[trigger] locations[j]).category@) == label
}

proof fn lemma_label_total_prefix(locations: Seq<DataLocation>, label: Seq<char>, i: int)
    requires
        0 <= i <= locations.len(),
    ensures
        label_total(locations.take(i), label) <= label_total(locations, label),
    decreases locations.len() - i,
{
    if i < locations.len() {
        lemma_label_total_prefix(locations, label, i + 1);
        assert(locations.take(i + 1).drop_last() =~= locations.take(i));
    } else {
        assert(locations.take(i) =~= locations);
    }
}

pub open spec fn count_text(n: nat, one: Seq<char>, many: Seq<char>) -> Seq<char> {
    if n == 1 {
        "1 "@ + one
    } else {
        crate::numtext::dec(n) + " "@ + many
    }
}

/// The per-category totals, one row per on-screen category in alphabetical
/// order, then the number of application data paths when there are any.
pub open spec fn location_rows_ok(
    rows: Seq<(Seq<char>, Seq<char>)>,
    locations: Seq<DataLocation>,
    application_paths: nat,
) -> bool {
    let groups = if application_paths > 0 {
        rows.drop_last()
    } else {
        rows
    };
    &&& application_paths > 0 ==> rows.len() > 0 && rows.last() == (
        "Application data paths"@,
        count_text(application_paths, "location"@, "locations"@),
    )
    &&& strictly_ascending(groups.map_values(|r: (Seq<char>, Seq<char>)| r.0))
    &&& forall|label: Seq<char>|
        groups.map_values(|r: (Seq<char>, Seq<char>)| r.0).contains(label) <==> has_category(locations, label)
    &&& forall|k: int|
        0 <= k < groups.len() ==> (#[trigger] groups[k]).1 == count_text(
            label_total(locations, groups[k].0),
            "file"@,
            "files"@,
        )
}

fn total_for(locations: &Vec<DataLocation>, label: &Vec<char>) -> (t: u64)
    requires
        label_total(locations@, label@) <= u64::MAX,
    ensures
        t == label_total(locations@, label@),
{
    let mut t: u64 = 0;
    let mut i: usize = 0;
    while i < locations.len()
        invariant
            i <= locations@.len(),
            label_total(locations@, label@) <= u64::MAX,
            t == label_total(locations@.take(i as int), label@),
        decreases locations.len() - i,
    {
        proof {
            lemma_label_total_prefix(locations@, label@, i + 1);
            assert(locations@.take(i + 1).drop_last() =~= locations@.take(i as int));
        }
        let name = friendly_category(locations[i].category.as_str());
        if seq_eq(&chars_of(name.as_str()), label) {
            t = t + locations[i].file_count;
        }
        i += 1;
    }
    assert(locations@.take(locations@.len() as int) =~= locations@);
    t
}

fn count_value(n: u64, one: &str, many: &str) -> (s: String)
    ensures
        s@ == count_text(n as nat, one@, many@),
{
    let mut out: Vec<char> = Vec::new();
    if n == 1 {
        append_str(&mut out, "1 ");
        append_str(&mut out, one);
    } else {
        crate::numtext::push_dec(&mut out, n);
        append_str(&mut out, " ");
        append_str(&mut out, many);
    }
    string_of(&out)
}

/// The on-screen summary of where personal data appears to live.
pub fn location_groups(locations: &Vec<DataLocation>, application_paths: u64) -> (groups: Vec<NamedValue>)
    requires
        forall|j: int|
            0 <= j < locations@.len() ==> label_total(locations@, friendly((#[trigger] locations@[j]).category@))
                <= u64::MAX,
    ensures
        location_rows_ok(named_views(groups@), locations@, application_paths as nat),
{
    let mut labels: Vec<Vec<char>> = Vec::new();
    let mut i: usize = 0;
    while i < locations.len()
        invariant
            i <= locations@.len(),
            strictly_ascending(crate::text::views(labels@)),
            forall|l: Seq<char>| crate::text::views(labels@).contains(l) <==> has_category(locations@.take(i as int), l),
        decreases locations.len() - i,
    {
        let ghost before = crate::text::views(labels@);
        let name = friendly_category(locations[i].category.as_str());
        crate::usb_topology::insert_sorted(&mut labels, chars_of(name.as_str()));
        proof {
            let t = locations@.take(i + 1);
            assert(t.drop_last() =~= locations@.take(i as int));
            assert forall|l: Seq<char>| crate::text::views(labels@).contains(l) <==> has_category(t, l) by {
                if has_category(t, l) {
                    let j = choose|j: int| 0 <= j < t.len() && friendly((#[trigger] t[j]).category@) == l;
                    if j < i {
                        assert(locations@.take(i as int)[j] == t[j]);
                        assert(has_category(locations@.take(i as int), l));
                    }
                }
                if has_category(locations@.take(i as int), l) {
                    let j = choose|j: int|
                        0 <= j < i && friendly((#[trigger] locations@.take(i as int)[j]).category@) == l;
                    assert(t[j] == locations@.take(i as int)[j]);
                }
                if l == name@ {
                    assert(t[i as int] == locations@[i as int]);
                }
            }
        }
        i += 1;
    }
    assert(locations@.take(locations@.len() as int) =~= locations@);
    let ghost lv = crate::text::views(labels@);
    let mut groups: Vec<NamedValue> = Vec::new();
    let mut k: usize = 0;
    while k < labels.len()
        invariant
            k <= labels@.len(),
            lv == crate::text::views(labels@),
            strictly_ascending(lv),
            forall|l: Seq<char>| lv.contains(l) <==> has_category(locations@, l),
            forall|j: int|
                0 <= j < locations@.len() ==> label_total(locations@, friendly((#[trigger] locations@[j]).category@))
                    <= u64::MAX,
            named_views(groups@).map_values(|r: (Seq<char>, Seq<char>)| r.0) == lv.take(k as int),
            forall|m: int|
                0 <= m < k ==> (#[trigger] named_views(groups@)[m]).1 == count_text(
                    label_total(locations@, lv[m]),
                    "file"@,
                    "files"@,
                ),
            groups@.len() == k,
        decreases labels.len() - k,
    {
        proof {
            assert(lv.contains(lv[k as int]));
            let j = choose|j: int| 0 <= j < locations@.len() && friendly((#[trigger] locations@[j]).category@) == lv[k as int];
            assert(label_total(locations@, lv[k as int]) <= u64::MAX);
        }
        let total = total_for(locations, &labels[k]);
        let ghost before = named_views(groups@);
        let value = count_value(total, "file", "files");
        let ghost vv = value@;
        groups.push(NamedValue { label: string_of(&labels[k]), value });
        assert(named_views(groups@) =~= before.push((lv[k as int], vv)));
        assert(named_views(groups@).map_values(|r: (Seq<char>, Seq<char>)| r.0) =~= lv.take(k + 1));
        k += 1;
    }
    assert(lv.take(lv.len() as int) =~= lv);
    let ghost grouped = named_views(groups@);
    if application_paths > 0 {
        let value = count_value(application_paths, "location", "locations");
        let ghost vv = value@;
        groups.push(NamedValue { label: owned("Application data paths"), value });
        assert(named_views(groups@) =~= grouped.push(("Application data paths"@, vv)));
        assert(named_views(groups@).drop_last() =~= grouped);
    }
    groups
}

proof fn lemma_label_total_bound(locations: Seq<DataLocation>, label: Seq<char>)
    ensures
        label_total(locations, label) <= locations.len() * 0xffff_ffff_ffff_ffff,
    decreases locations.len(),
{
    if locations.len() > 0 {
        lemma_label_total_bound(locations.drop_last(), label);
    }
}

fn wide_label_total(locations: &Vec<DataLocation>, label: &Vec<char>) -> (t: u128)
    ensures
        t as nat == label_total(locations@, label@),
{
    let mut t: u128 = 0;
    let mut i: usize = 0;
    while i < locations.len()
        invariant
            i <= locations@.len(),
            t as nat == label_total(locations@.take(i as int), label@),
        decreases locations.len() - i,
    {
        proof {
            assert(locations@.take(i + 1).drop_last() =~= locations@.take(i as int));
            lemma_label_total_bound(locations@.take(i as int), label@);
            assert(locations@.take(i as int).len() * 0xffff_ffff_ffff_ffff <= 0xffff_ffff_ffff_ffff
                * 0xffff_ffff_ffff_ffff) by (nonlinear_arith)
                requires
                    locations@.take(i as int).len() <= 0xffff_ffff_ffff_ffff,
            ;
        }
        let name = friendly_category(locations[i].category.as_str());
        if seq_eq(&chars_of(name.as_str()), label) {
            t = t + locations[i].file_count as u128;
        }
        i += 1;
    }
    assert(locations@.take(locations@.len() as int) =~= locations@);
    t
}

/// Whether every on-screen category's file total fits a `u64`.
pub fn location_totals_fit(locations: &Vec<DataLocation>) -> (r: bool)
    ensures
        r == forall|j: int|
            0 <= j < locations@.len() ==> label_total(locations@, friendly((#[trigger] locations@[j]).category@))
                <= u64::MAX,
{
    let mut i: usize = 0;
    while i < locations.len()
        invariant
            i <= locations@.len(),
            forall|j: int|
                0 <= j < i ==> label_total(locations@, friendly((#[trigger] locations@[j]).category@)) <= u64::MAX,
        decreases locations.len() - i,
    {
        let name = friendly_category(locations[i].category.as_str());
        if wide_label_total(locations, &chars_of(name.as_str())) > 0xffff_ffff_ffff_ffff {
            return false;
        }
        i += 1;
    }
    true
}

/// The drives a customer verification covers: those chosen, by letter, or
/// the system drive when none was chosen.
pub open spec fn selected_spec(chosen: Seq<Seq<char>>, system_letter: Seq<char>) -> Seq<Seq<char>> {
    if chosen.len() == 0 {
        seq![system_letter]
    } else {
        chosen.map_values(|l: Seq<char>| crate::scan::letter_key_spec(l)).filter(|k: Seq<char>| k.len() > 0)
    }
}

pub fn selected_letters(drive_letters: &[String], system_letter: String) -> (out: Vec<String>)
    ensures
        crate::text::string_views(out@) == selected_spec(crate::text::string_views(drive_letters@), system_letter@),
{
    let ghost chosen = crate::text::string_views(drive_letters@);
    if drive_letters.len() == 0 {
        let mut out: Vec<String> = Vec::new();
        let ghost sv = system_letter@;
        out.push(system_letter);
        assert(crate::text::string_views(out@) =~= seq![sv]);
        return out;
    }
    let ghost keys = chosen.map_values(|l: Seq<char>| crate::scan::letter_key_spec(l));
    let mut out: Vec<String> = Vec::new();
    let mut i: usize = 0;
    while i < drive_letters.len()
        invariant
            i <= drive_letters@.len(),
            chosen == crate::text::string_views(drive_letters@),
            keys == chosen.map_values(|l: Seq<char>| crate::scan::letter_key_spec(l)),
            crate::text::string_views(out@) == keys.take(i as int).filter(|k: Seq<char>| k.len() > 0),
        decreases drive_letters.len() - i,
    {
        let ghost pre = keys.take(i as int);
        assert(keys.take(i + 1).drop_last() =~= pre);
        reveal_with_fuel(Seq::<_>::filter, 1);
        let key = crate::scan::letter_key(drive_letters[i].as_str());
        assert(keys[i as int] == key@);
        if chars_of(key.as_str()).len() > 0 {
            let ghost before = crate::text::string_views(out@);
            let ghost kv = key@;
            out.push(key);
            assert(crate::text::string_views(out@) =~= before.push(kv));
        }
        i += 1;
    }
    assert(keys.take(keys.len() as int) =~= keys);
    out
}

/// What the customer verification screen shows.
pub struct CustomerVerification {
    pub hardware_passed: bool,
    pub hardware_result: String,
    pub hardware_validation: String,
    pub report_json: String,
    pub manufacturer: String,
    pub model: String,
    pub hostname: String,
    pub os_caption: String,
    pub personal_location_count: u64,
    pub pdem_object_count: u64,
    pub content_inspected: bool,
    pub destructive_operations_enabled: bool,
    pub assessment_status: String,
    pub assessment_summary: String,
    pub scanned_drives: String,
    pub hardware_fields: Vec<NamedValue>,
    pub location_groups: Vec<NamedValue>,
}

/// The hardware rows of a scan: the inventory's customer rows (none
/// without an inventory), with the computer name and operating system put
/// first, the device serial overlaid, and the disk serials appended.
pub open spec fn hardware_rows(scan: crate::scan::ScanResult) -> Seq<(Seq<char>, Seq<char>)> {
    let base = match scan.hardware_inventory {
        Some(inv) => crate::customer_fields::customer_rows(inv),
        None => Seq::empty(),
    };
    with_disk_serials(
        overlaid(
            prepended(
                prepended(base, "Computer name"@, scan.device.hostname@),
                "Operating system"@,
                scan.operating_system.caption@,
            ),
            scan.device.serial_number@,
        ),
        scan.storage.disks@,
    )
}

pub open spec fn hardware_outcome_ok(
    inventory: Option<crate::hardware_inventory_v1::HardwareInventoryV1>,
    text: Seq<char>,
    passed: bool,
    result: Seq<char>,
) -> bool {
    match inventory {
        Some(inv) => {
            &&& passed == crate::hardware_validation::passes(inv)
            &&& result == (if crate::hardware_validation::passes(inv) {
                "pass"@
            } else {
                "fail"@
            })
            &&& text == crate::text::join(crate::hardware_validation::report_lines(inv), "\n"@)
        },
        None => {
            &&& !passed
            &&& result == "not_windows"@
            &&& text == crate::text::join(crate::hardware_validation::not_windows_lines(), "\n"@)
        },
    }
}

fn hardware_outcome(scan: &crate::scan::ScanResult) -> (r: (String, bool, String, Vec<NamedValue>))
    requires
        scan.hardware_inventory matches Some(inv) ==> crate::customer_fields::port_sums_fit(inv.ports.records@),
    ensures
        hardware_outcome_ok(scan.hardware_inventory, r.0@, r.1, r.2@),
        named_views(r.3@) == match scan.hardware_inventory {
            Some(inv) => crate::customer_fields::customer_rows(inv),
            None => Seq::empty(),
        },
{
    let (text, passed, result, rows) = match &scan.hardware_inventory {
        Some(inventory) => {
            let report = crate::hardware_validation::build_report(inventory);
            let text = crate::text::join_strings(&report.lines, "\n");
            let result = if report.passed {
                owned("pass")
            } else {
                owned("fail")
            };
            (text, report.passed, result, crate::customer_fields::customer_hardware_fields(inventory))
        },
        None => (crate::hardware_validation::not_windows_text(), false, owned("not_windows"), Vec::new()),
    };
    let ghost rv = crate::customer_fields::rows_view(rows@);
    let mut fields: Vec<NamedValue> = Vec::new();
    let mut i: usize = 0;
    while i < rows.len()
        invariant
            i <= rows@.len(),
            rv == crate::customer_fields::rows_view(rows@),
            named_views(fields@) == rv.take(i as int),
        decreases rows.len() - i,
    {
        let ghost before = named_views(fields@);
        let label = rows[i].0.clone();
        let value = rows[i].1.clone();
        fields.push(NamedValue { label, value });
        assert(named_views(fields@) =~= before.push(rv[i as int]));
        assert(rv.take(i + 1) =~= rv.take(i as int).push(rv[i as int]));
        i += 1;
    }
    assert(rv.take(rv.len() as int) =~= rv);
    (text, passed, result, fields)
}

/// What the customer is shown for a finished scan.
pub fn customer_verification(scan: &crate::scan::ScanResult) -> (v: CustomerVerification)
    requires
        scan.hardware_inventory matches Some(inv) ==> crate::customer_fields::port_sums_fit(inv.ports.records@),
        forall|j: int|
            0 <= j < scan.personal_data.locations@.len() ==> label_total(
                scan.personal_data.locations@,
                friendly((#[trigger] scan.personal_data.locations@[j]).category@),
            ) <= u64::MAX,
    ensures
        hardware_outcome_ok(scan.hardware_inventory, v.hardware_validation@, v.hardware_passed, v.hardware_result@),
        named_views(v.hardware_fields@) == hardware_rows(*scan),
        v.report_json@ == crate::scan::scan_json(*scan),
        v.manufacturer@ == scan.device.manufacturer@,
        v.model@ == scan.device.model@,
        v.hostname@ == scan.device.hostname@,
        v.os_caption@ == scan.operating_system.caption@,
        v.personal_location_count == scan.personal_data.locations@.len(),
        v.pdem_object_count == scan.pdem.objects@.len(),
        v.content_inspected == (scan.personal_data.content_inspected || scan.application_data.content_inspected),
        v.destructive_operations_enabled == scan.storage.destructive_operations_enabled,
        v.assessment_status@ == scan.assessment.status@,
        v.assessment_summary@ == scan.assessment.summary@,
        v.scanned_drives@ == crate::scan::scanned_label_spec(scan.volumes@),
        location_rows_ok(
            named_views(v.location_groups@),
            scan.personal_data.locations@,
            scan.application_data.locations@.len(),
        ),
{
    let (hardware_validation, hardware_passed, hardware_result, mut fields) = hardware_outcome(scan);
    prepend_field(&mut fields, "Computer name", scan.device.hostname.clone());
    prepend_field(&mut fields, "Operating system", scan.operating_system.caption.clone());
    overlay_bios_serial_from_device(&mut fields, scan.device.serial_number.as_str());
    append_disk_serials(&mut fields, &scan.storage);
    let personal_location_count = scan.personal_data.locations.len() as u64;
    let pdem_object_count = scan.pdem.objects.len() as u64;
    let groups = location_groups(&scan.personal_data.locations, scan.application_data.locations.len() as u64);
    CustomerVerification {
        hardware_passed,
        hardware_result,
        hardware_validation,
        report_json: scan.render_json(),
        manufacturer: scan.device.manufacturer.clone(),
        model: scan.device.model.clone(),
        hostname: scan.device.hostname.clone(),
        os_caption: scan.operating_system.caption.clone(),
        personal_location_count,
        pdem_object_count,
        content_inspected: scan.personal_data.content_inspected || scan.application_data.content_inspected,
        destructive_operations_enabled: scan.storage.destructive_operations_enabled,
        assessment_status: owned(scan.assessment.status),
        assessment_summary: owned(scan.assessment.summary),
        scanned_drives: crate::scan::scanned_drive_label(scan.volumes.as_slice()),
        hardware_fields: fields,
        location_groups: groups,
    }
}

} // verus!
