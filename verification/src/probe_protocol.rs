//! The line protocol the read-only hardware probes print: one value per line
//! as `section<TAB>index<TAB>name<TAB>hex`, the value hex-encoded UTF-8.
//! Only allowed sections and names, small indexes and bounded values are
//! kept; a later line for the same key replaces an earlier one.

use vstd::prelude::*;
use vstd::utf8::{decode_utf8, valid_utf8};
use crate::numtext::{parse_u64, parse_u64_spec};
use crate::text::{
    chars_of, collapse_ws, collapse_ws_vec, eq_str, is_ascii_alnum, is_hex_digit, lines, lines_vec,
    lower, lower_seq, lower_vec, owned, split_on, split_vec, string_of, trim, trim_vec, views,
};

verus! {

/// The value of a hex digit of either case.
pub open spec fn nibble(c: char) -> nat {
    if '0' <= c && c <= '9' {
        (c as u32 - 48) as nat
    } else if 'a' <= c && c <= 'f' {
        (c as u32 - 87) as nat
    } else {
        (c as u32 - 55) as nat
    }
}

pub open spec fn all_hex(s: Seq<char>) -> bool {
    forall|i: int| 0 <= i < s.len() ==> #[trigger] is_hex_digit(s[i])
}

/// The bytes written two hex digits each.
pub open spec fn hex_bytes(s: Seq<char>) -> Seq<u8> {
    Seq::new(s.len() / 2, |k: int| (16 * nibble(s[2 * k]) + nibble(s[2 * k + 1])) as u8)
}

/// A protocol value: an even number of hex digits for at most `max_bytes`
/// bytes of UTF-8 text, with whitespace runs collapsed, and not blank.
pub open spec fn decode_value(encoded: Seq<char>, max_bytes: nat) -> Option<Seq<char>> {
    if encoded.len() % 2 == 0 && encoded.len() / 2 <= max_bytes && all_hex(encoded) {
        let bytes = hex_bytes(encoded);
        if valid_utf8(bytes) && collapse_ws(decode_utf8(bytes)).len() > 0 {
            Some(collapse_ws(decode_utf8(bytes)))
        } else {
            None
        }
    } else {
        None
    }
}

pub open spec fn listed(list: Seq<Seq<char>>, s: Seq<char>) -> bool {
    exists|i: int| 0 <= i < list.len() && #[trigger] list[i] == s
}

/// The texts of a list of string slices.
pub open spec fn strs(list: Seq<&str>) -> Seq<Seq<char>> {
    list.map_values(|s: &str| s@)
}

/// The key and value one protocol line carries, if it is kept.
pub open spec fn protocol_entry(
    line: Seq<char>,
    max_index: nat,
    max_bytes: nat,
    sections: Seq<Seq<char>>,
    names: Seq<Seq<char>>,
    drop_macs: bool,
) -> Option<((Seq<char>, int, Seq<char>), Seq<char>)> {
    let parts = split_on(line, '\t');
    if line.len() == 0 || parts.len() != 4 {
        None
    } else if !listed(sections, parts[0]) || !listed(names, parts[2]) {
        None
    } else {
        match parse_u64_spec(parts[1]) {
            None => None,
            Some(i) => if i > max_index {
                None
            } else {
                match decode_value(parts[3], max_bytes) {
                    None => None,
                    Some(v) => if drop_macs && looks_like_mac(v) {
                        None
                    } else {
                        Some(((parts[0], i as int, parts[2]), v))
                    },
                }
            },
        }
    }
}

/// The values the kept lines leave, later lines replacing earlier ones.
pub open spec fn protocol_map(
    ls: Seq<Seq<char>>,
    max_index: nat,
    max_bytes: nat,
    sections: Seq<Seq<char>>,
    names: Seq<Seq<char>>,
    drop_macs: bool,
) -> Map<(Seq<char>, int, Seq<char>), Seq<char>>
    decreases ls.len(),
{
    if ls.len() == 0 {
        Map::empty()
    } else {
        let before = protocol_map(ls.drop_last(), max_index, max_bytes, sections, names, drop_macs);
        match protocol_entry(ls.last(), max_index, max_bytes, sections, names, drop_macs) {
            Some((k, v)) => before.insert(k, v),
            None => before,
        }
    }
}

/// The values of a probe's output: only its first `max_lines` lines count;
/// with `drop_macs`, a value that looks like a hardware address is dropped.
pub open spec fn parse_spec(
    text: Seq<char>,
    max_lines: nat,
    max_index: nat,
    max_bytes: nat,
    sections: Seq<Seq<char>>,
    names: Seq<Seq<char>>,
    drop_macs: bool,
) -> Map<(Seq<char>, int, Seq<char>), Seq<char>> {
    let ls = lines(text);
    protocol_map(
        if ls.len() <= max_lines {
            ls
        } else {
            ls.take(max_lines as int)
        },
        max_index,
        max_bytes,
        sections,
        names,
        drop_macs,
    )
}

/// A hardware address is split at colons when it has any, else at dashes.
pub open spec fn mac_separator(value: Seq<char>) -> char {
    if crate::text::has_char(value, ':') {
        ':'
    } else {
        '-'
    }
}

pub open spec fn hex_pair_ok(p: Seq<char>) -> bool {
    p.len() == 2 && is_hex_digit(p[0]) && is_hex_digit(p[1])
}

/// Six pairs of hex digits separated by `:` (or, without a colon, by `-`).
pub open spec fn looks_like_mac(value: Seq<char>) -> bool {
    &&& (crate::text::has_char(value, ':') || crate::text::has_char(value, '-'))
    &&& split_on(value, mac_separator(value)).len() == 6
    &&& forall|i: int|
        0 <= i < 6 ==> hex_pair_ok(#[trigger] split_on(value, mac_separator(value))[i])
}

pub fn looks_like_mac_exec(value: &Vec<char>) -> (r: bool)
    ensures
        r == looks_like_mac(value@),
{
    let sep = if crate::text::has_char_vec(value, ':') {
        ':'
    } else if crate::text::has_char_vec(value, '-') {
        '-'
    } else {
        return false;
    };
    let parts = split_vec(value, sep);
    if parts.len() != 6 {
        return false;
    }
    let ghost ps = split_on(value@, mac_separator(value@));
    assert(views(parts@) == ps);
    let mut i: usize = 0;
    while i < 6
        invariant
            i <= 6,
            parts@.len() == 6,
            views(parts@) == ps,
            ps == split_on(value@, mac_separator(value@)),
            forall|k: int| 0 <= k < i ==> hex_pair_ok(#[trigger] ps[k]),
        decreases 6 - i,
    {
        assert(ps[i as int] == parts@[i as int]@);
        let p = &parts[i];
        if p.len() != 2 || nibble_of(p[0]).is_none() || nibble_of(p[1]).is_none() {
            assert(!hex_pair_ok(ps[i as int]));
            return false;
        }
        i += 1;
    }
    true
}


/// `String::from_utf8`: the text the bytes encode, or none when they are
/// not valid UTF-8.
#[verifier::external_body]
fn utf8_text(bytes: Vec<u8>) -> (r: Option<String>)
    ensures
        match r {
            Some(s) => valid_utf8(bytes@) && s@ == decode_utf8(bytes@),
            None => !valid_utf8(bytes@),
        },
{
    String::from_utf8(bytes).ok()
}

fn nibble_of(c: char) -> (r: Option<u8>)
    ensures
        match r {
            Some(v) => is_hex_digit(c) && v == nibble(c),
            None => !is_hex_digit(c),
        },
{
    if '0' <= c && c <= '9' {
        Some((c as u32 - 48) as u8)
    } else if 'a' <= c && c <= 'f' {
        Some((c as u32 - 87) as u8)
    } else if 'A' <= c && c <= 'F' {
        Some((c as u32 - 55) as u8)
    } else {
        None
    }
}

fn decode_value_of(encoded: &Vec<char>, max_bytes: usize) -> (r: Option<String>)
    ensures
        match r {
            Some(v) => decode_value(encoded@, max_bytes as nat) == Some(v@),
            None => decode_value(encoded@, max_bytes as nat) is None,
        },
{
    if encoded.len() % 2 != 0 || encoded.len() / 2 > max_bytes {
        return None;
    }
    let mut bytes: Vec<u8> = Vec::new();
    let mut k: usize = 0;
    while k < encoded.len() / 2
        invariant
            encoded@.len() % 2 == 0,
            k <= encoded@.len() / 2,
            bytes@.len() == k,
            forall|j: int| 0 <= j < 2 * k ==> #[trigger] is_hex_digit(encoded@[j]),
            forall|j: int| 0 <= j < k ==> bytes@[j] == hex_bytes(encoded@)[j],
        decreases encoded.len() / 2 - k,
    {
        let hi = nibble_of(encoded[2 * k]);
        let lo = nibble_of(encoded[2 * k + 1]);
        match (hi, lo) {
            (Some(h), Some(l)) => {
                bytes.push(16 * h + l);
            },
            _ => {
                proof {
                    if all_hex(encoded@) {
                        assert(is_hex_digit(encoded@[2 * k as int]));
                        assert(is_hex_digit(encoded@[2 * k + 1]));
                    }
                }
                return None;
            },
        }
        k += 1;
    }
    proof {
        assert forall|j: int| 0 <= j < encoded@.len() implies #[trigger] is_hex_digit(encoded@[j]) by {
        }
        assert(bytes@ =~= hex_bytes(encoded@));
    }
    match utf8_text(bytes) {
        Some(text) => {
            let v = collapse_ws_vec(&chars_of(text.as_str()));
            if v.len() == 0 {
                None
            } else {
                Some(string_of(&v))
            }
        },
        None => None,
    }
}

/// Hex-encoded UTF-8 text, taken as it is: an even number of hex digits
/// whose bytes are valid UTF-8.
pub open spec fn hex_text_spec(encoded: Seq<char>) -> Option<Seq<char>> {
    if encoded.len() % 2 == 0 && all_hex(encoded) && valid_utf8(hex_bytes(encoded)) {
        Some(decode_utf8(hex_bytes(encoded)))
    } else {
        None
    }
}

pub fn hex_text(encoded: &Vec<char>) -> (r: Option<String>)
    ensures
        match r {
            Some(v) => hex_text_spec(encoded@) == Some(v@),
            None => hex_text_spec(encoded@) is None,
        },
{
    if encoded.len() % 2 != 0 {
        return None;
    }
    let mut bytes: Vec<u8> = Vec::new();
    let mut k: usize = 0;
    while k < encoded.len() / 2
        invariant
            encoded@.len() % 2 == 0,
            k <= encoded@.len() / 2,
            bytes@.len() == k,
            forall|j: int| 0 <= j < 2 * k ==> #[trigger] is_hex_digit(encoded@[j]),
            forall|j: int| 0 <= j < k ==> bytes@[j] == hex_bytes(encoded@)[j],
        decreases encoded.len() / 2 - k,
    {
        let hi = nibble_of(encoded[2 * k]);
        let lo = nibble_of(encoded[2 * k + 1]);
        match (hi, lo) {
            (Some(h), Some(l)) => {
                bytes.push(16 * h + l);
            },
            _ => {
                proof {
                    if all_hex(encoded@) {
                        assert(is_hex_digit(encoded@[2 * k as int]));
                        assert(is_hex_digit(encoded@[2 * k + 1]));
                    }
                }
                return None;
            },
        }
        k += 1;
    }
    proof {
        assert forall|j: int| 0 <= j < encoded@.len() implies #[trigger] is_hex_digit(encoded@[j]) by {
        }
        assert(bytes@ =~= hex_bytes(encoded@));
    }
    utf8_text(bytes)
}

fn listed_in(list: &[&str], s: &Vec<char>) -> (r: bool)
    ensures
        r == listed(strs(list@), s@),
{
    let mut i: usize = 0;
    while i < list.len()
        invariant
            i <= list@.len(),
            forall|j: int| 0 <= j < i ==> (#[trigger] strs(list@)[j]) != s@,
        decreases list.len() - i,
    {
        if eq_str(s, list[i]) {
            assert(strs(list@)[i as int] == s@);
            return true;
        }
        i += 1;
    }
    false
}

/// Probe values by `(section, index, name)`.
#[derive(Debug, Clone)]
pub struct ProtocolValues {
    entries: Vec<(String, usize, String, String)>,
}

pub open spec fn entries_map(
    entries: Seq<(String, usize, String, String)>,
) -> Map<(Seq<char>, int, Seq<char>), Seq<char>>
    decreases entries.len(),
{
    if entries.len() == 0 {
        Map::empty()
    } else {
        let e = entries.last();
        entries_map(entries.drop_last()).insert((e.0@, e.1 as int, e.2@), e.3@)
    }
}

proof fn lemma_entries_prefix(
    entries: Seq<(String, usize, String, String)>,
    j: int,
    key: (Seq<char>, int, Seq<char>),
)
    requires
        0 <= j <= entries.len(),
        forall|m: int|
            j <= m < entries.len() ==> ((#[trigger] entries[m]).0@, entries[m].1 as int, entries[m].2@)
                != key,
    ensures
        entries_map(entries).contains_key(key) == entries_map(entries.take(j)).contains_key(key),
        entries_map(entries).contains_key(key) ==> entries_map(entries)[key] == entries_map(
            entries.take(j),
        )[key],
    decreases entries.len() - j,
{
    if j < entries.len() {
        assert(entries.drop_last().take(j) =~= entries.take(j));
        lemma_entries_prefix(entries.drop_last(), j, key);
    } else {
        assert(entries.take(j) =~= entries);
    }
}

impl ProtocolValues {
    pub closed spec fn map(&self) -> Map<(Seq<char>, int, Seq<char>), Seq<char>> {
        entries_map(self.entries@)
    }

    pub fn get(&self, section: &str, index: usize, name: &str) -> (r: Option<&String>)
        ensures
            match r {
                Some(v) => self.map().contains_key((section@, index as int, name@))
                    && self.map()[(section@, index as int, name@)] == v@,
                None => !self.map().contains_key((section@, index as int, name@)),
            },
    {
        let ghost key = (section@, index as int, name@);
        let mut i: usize = self.entries.len();
        while i > 0
            invariant
                i <= self.entries@.len(),
                key == (section@, index as int, name@),
                forall|m: int|
                    i <= m < self.entries@.len() ==> ((#[trigger] self.entries@[m]).0@,
                    self.entries@[m].1 as int, self.entries@[m].2@) != key,
            decreases i,
        {
            let e = &self.entries[i - 1];
            if e.1 == index && eq_str(&chars_of(e.0.as_str()), section) && eq_str(
                &chars_of(e.2.as_str()),
                name,
            ) {
                proof {
                    lemma_entries_prefix(self.entries@, i as int, key);
                    assert(self.entries@.take(i as int).drop_last() =~= self.entries@.take(i - 1));
                }
                return Some(&e.3);
            }
            i -= 1;
        }
        proof {
            lemma_entries_prefix(self.entries@, 0, key);
        }
        None
    }
}

fn protocol_entry_of(
    line: &Vec<char>,
    max_index: usize,
    max_bytes: usize,
    sections: &[&str],
    names: &[&str],
    drop_macs: bool,
) -> (r: Option<(String, usize, String, String)>)
    ensures
        match r {
            Some(e) => protocol_entry(
                line@,
                max_index as nat,
                max_bytes as nat,
                strs(sections@),
                strs(names@),
                drop_macs,
            ) == Some(((e.0@, e.1 as int, e.2@), e.3@)),
            None => protocol_entry(
                line@,
                max_index as nat,
                max_bytes as nat,
                strs(sections@),
                strs(names@),
                drop_macs,
            ) is None,
        },
{
    if line.len() == 0 {
        return None;
    }
    let parts = split_vec(line, '\t');
    if parts.len() != 4 {
        return None;
    }
    assert(views(parts@)[0] == parts@[0]@);
    assert(views(parts@)[1] == parts@[1]@);
    assert(views(parts@)[2] == parts@[2]@);
    assert(views(parts@)[3] == parts@[3]@);
    if !listed_in(sections, &parts[0]) || !listed_in(names, &parts[2]) {
        return None;
    }
    let index = match parse_u64(&parts[1]) {
        Some(i) => i,
        None => {
            return None;
        },
    };
    if index > max_index as u64 {
        return None;
    }
    match decode_value_of(&parts[3], max_bytes) {
        Some(v) => {
            if drop_macs && looks_like_mac_exec(&chars_of(v.as_str())) {
                None
            } else {
                Some((string_of(&parts[0]), index as usize, string_of(&parts[2]), v))
            }
        },
        None => None,
    }
}

/// Reads a probe's output into values.
pub fn parse_protocol(
    text: &str,
    max_lines: usize,
    max_index: usize,
    max_bytes: usize,
    sections: &[&str],
    names: &[&str],
    drop_macs: bool,
) -> (values: ProtocolValues)
    ensures
        values.map() == parse_spec(
            text@,
            max_lines as nat,
            max_index as nat,
            max_bytes as nat,
            strs(sections@),
            strs(names@),
            drop_macs,
        ),
{
    let ls = lines_vec(&chars_of(text));
    let ghost all = views(ls@);
    let ghost kept = if all.len() <= max_lines {
        all
    } else {
        all.take(max_lines as int)
    };
    let n: usize = if ls.len() <= max_lines {
        ls.len()
    } else {
        max_lines
    };
    assert(kept.len() == n);
    let mut values = ProtocolValues { entries: Vec::new() };
    let mut i: usize = 0;
    while i < n
        invariant
            i <= n,
            n <= ls@.len(),
            all == views(ls@),
            kept.len() == n,
            forall|k: int| 0 <= k < n ==> kept[k] == all[k],
            values.map() == protocol_map(
                kept.take(i as int),
                max_index as nat,
                max_bytes as nat,
                strs(sections@),
                strs(names@),
                drop_macs,
            ),
        decreases n - i,
    {
        let ghost t = kept.take(i + 1);
        assert(t.drop_last() =~= kept.take(i as int));
        assert(t.last() == ls@[i as int]@);
        match protocol_entry_of(&ls[i], max_index, max_bytes, sections, names, drop_macs) {
            Some(e) => {
                let ghost before = values.entries@;
                values.entries.push(e);
                assert(values.entries@.drop_last() =~= before);
            },
            None => {},
        }
        i += 1;
    }
    assert(kept.take(n as int) =~= kept);
    values
}

/// The letters and digits of a value, lower-cased.
pub open spec fn compact(s: Seq<char>) -> Seq<char>
    decreases s.len(),
{
    if s.len() == 0 {
        Seq::<char>::empty()
    } else if is_ascii_alnum(s.last()) {
        compact(s.drop_last()).push(lower(s.last()))
    } else {
        compact(s.drop_last())
    }
}

/// A value firmware writes when it has nothing to say; with `zeros`, a value
/// of only zeros counts too.
pub open spec fn is_placeholder(value: Seq<char>, zeros: bool) -> bool {
    let c = compact(value);
    ||| c.len() == 0
    ||| c == "unknown"@
    ||| c == "none"@
    ||| c == "na"@
    ||| c == "notavailable"@
    ||| c == "tobefilledbyoem"@
    ||| c == "defaultstring"@
    ||| (zeros && forall|i: int| 0 <= i < c.len() ==> c[i] == '0')
}

pub fn compact_of(s: &Vec<char>) -> (out: Vec<char>)
    ensures
        out@ == compact(s@),
{
    let mut out: Vec<char> = Vec::new();
    let mut i: usize = 0;
    while i < s.len()
        invariant
            i <= s@.len(),
            out@ == compact(s@.take(i as int)),
        decreases s.len() - i,
    {
        assert(s@.take(i + 1).drop_last() =~= s@.take(i as int));
        let c = s[i];
        if ('0' <= c && c <= '9') || ('a' <= c && c <= 'z') || ('A' <= c && c <= 'Z') {
            out.push(crate::text::lower_char(c));
        }
        i += 1;
    }
    assert(s@.take(s@.len() as int) =~= s@);
    out
}

pub fn placeholder(value: &Vec<char>, zeros: bool) -> (r: bool)
    ensures
        r == is_placeholder(value@, zeros),
{
    let c = compact_of(value);
    if c.len() == 0 || eq_str(&c, "unknown") || eq_str(&c, "none") || eq_str(&c, "na") || eq_str(
        &c,
        "notavailable",
    ) || eq_str(&c, "tobefilledbyoem") || eq_str(&c, "defaultstring") {
        return true;
    }
    if !zeros {
        return false;
    }
    let mut i: usize = 0;
    while i < c.len()
        invariant
            i <= c@.len(),
            zeros,
            c@ == compact(value@),
            c@.len() != 0 && c@ != "unknown"@ && c@ != "none"@ && c@ != "na"@ && c@
                != "notavailable"@ && c@ != "tobefilledbyoem"@ && c@ != "defaultstring"@,
            forall|j: int| 0 <= j < i ==> c@[j] == '0',
        decreases c.len() - i,
    {
        if c[i] != '0' {
            assert(c@[i as int] != '0');
            return false;
        }
        i += 1;
    }
    true
}

/// A text field: the value trimmed, unless blank or a placeholder.
pub open spec fn text_value(v: Option<Seq<char>>, zeros: bool) -> Option<Seq<char>> {
    match v {
        Some(s) => if trim(s).len() > 0 && !is_placeholder(trim(s), zeros) {
            Some(trim(s))
        } else {
            None
        },
        None => None,
    }
}

pub open spec fn lookup(m: Map<(Seq<char>, int, Seq<char>), Seq<char>>, section: Seq<char>, index: int, name: Seq<char>) -> Option<Seq<char>> {
    if m.contains_key((section, index, name)) {
        Some(m[(section, index, name)])
    } else {
        None
    }
}

pub open spec fn flag_spec(
    m: Map<(Seq<char>, int, Seq<char>), Seq<char>>,
    section: Seq<char>,
    index: int,
    name: Seq<char>,
) -> bool {
    match lookup(m, section, index, name) {
        Some(v) => lower_seq(v) == "true"@,
        None => false,
    }
}

/// The indexes below `n` whose `present` flag is set, in order.
pub open spec fn present_indices(
    m: Map<(Seq<char>, int, Seq<char>), Seq<char>>,
    section: Seq<char>,
    n: nat,
) -> Seq<int>
    decreases n,
{
    if n == 0 {
        Seq::<int>::empty()
    } else {
        let before = present_indices(m, section, (n - 1) as nat);
        if flag_spec(m, section, n - 1, "present"@) {
            before.push(n - 1)
        } else {
            before
        }
    }
}

pub open spec fn opt_view(o: Option<String>) -> Option<Seq<char>> {
    match o {
        Some(s) => Some(s@),
        None => None,
    }
}

impl ProtocolValues {
    pub fn lookup_value(&self, section: &str, index: usize, name: &str) -> (r: Option<Vec<char>>)
        ensures
            match r {
                Some(v) => lookup(self.map(), section@, index as int, name@) == Some(v@),
                None => lookup(self.map(), section@, index as int, name@) is None,
            },
    {
        match self.get(section, index, name) {
            Some(v) => Some(chars_of(v.as_str())),
            None => None,
        }
    }

    /// A text field, trimmed, never blank or a placeholder.
    pub fn text(&self, section: &str, index: usize, name: &str, zeros: bool) -> (r: Option<String>)
        ensures
            opt_view(r) == text_value(lookup(self.map(), section@, index as int, name@), zeros),
    {
        match self.lookup_value(section, index, name) {
            Some(v) => {
                let t = trim_vec(&v);
                if t.len() > 0 && !placeholder(&t, zeros) {
                    Some(string_of(&t))
                } else {
                    None
                }
            },
            None => None,
        }
    }

    /// A flag is set only when written `true`, in any case.
    pub fn flag(&self, section: &str, index: usize, name: &str) -> (r: bool)
        ensures
            r == flag_spec(self.map(), section@, index as int, name@),
    {
        match self.lookup_value(section, index, name) {
            Some(v) => eq_str(&lower_vec(&v), "true"),
            None => false,
        }
    }

    /// A whole number as written, if it parses.
    pub fn number(&self, section: &str, index: usize, name: &str) -> (r: Option<u64>)
        ensures
            r == (match lookup(self.map(), section@, index as int, name@) {
                Some(v) => parse_u64_spec(v),
                None => None,
            }),
    {
        match self.lookup_value(section, index, name) {
            Some(v) => parse_u64(&v),
            None => None,
        }
    }
}

/// How a probe source answered, as its status line says.
#[derive(Debug, Clone, Copy, PartialEq, Eq, Structural)]
pub enum WireOutcome {
    Reported,
    NotQueried,
    PermissionDenied,
    Unsupported,
    CollectionError,
}

pub open spec fn wire_outcome(value: Option<Seq<char>>) -> WireOutcome {
    match value {
        None => WireOutcome::NotQueried,
        Some(v) => if v == "reported"@ {
            WireOutcome::Reported
        } else if v == "permission_denied"@ {
            WireOutcome::PermissionDenied
        } else if v == "unsupported"@ {
            WireOutcome::Unsupported
        } else {
            WireOutcome::CollectionError
        },
    }
}

impl ProtocolValues {
    /// The outcome a source's `source_status` line reports; not queried
    /// when there is none.
    pub fn outcome(&self, section: &str) -> (r: WireOutcome)
        ensures
            r == wire_outcome(lookup(self.map(), section@, 0, "source_status"@)),
    {
        match self.lookup_value(section, 0, "source_status") {
            None => WireOutcome::NotQueried,
            Some(v) => if eq_str(&v, "reported") {
                WireOutcome::Reported
            } else if eq_str(&v, "permission_denied") {
                WireOutcome::PermissionDenied
            } else if eq_str(&v, "unsupported") {
                WireOutcome::Unsupported
            } else {
                WireOutcome::CollectionError
            },
        }
    }
}

/// A positive count read from a decimal numeral: its whole part, capped
/// at `u32::MAX`.
pub open spec fn decimal32(
    m: Map<(Seq<char>, int, Seq<char>), Seq<char>>,
    section: Seq<char>,
    index: int,
    name: Seq<char>,
) -> Option<u32> {
    match lookup(m, section, index, name) {
        Some(v) => match crate::numtext::decimal_whole(v, u32::MAX as nat) {
            Some(n) => if n > 0 {
                Some(n as u32)
            } else {
                None
            },
            None => None,
        },
        None => None,
    }
}

impl ProtocolValues {
    pub fn decimal_u32(&self, section: &str, index: usize, name: &str) -> (r: Option<u32>)
        ensures
            r == decimal32(self.map(), section@, index as int, name@),
    {
        match self.lookup_value(section, index, name) {
            Some(v) => match crate::numtext::parse_decimal_whole(&v, 0xffff_ffff) {
                Some(n) => if n > 0 {
                    Some(n as u32)
                } else {
                    None
                },
                None => None,
            },
            None => None,
        }
    }
}

} // verus!
