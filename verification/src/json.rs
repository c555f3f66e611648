//! Compact JSON text: string escaping, scalars and arrays.

use vstd::prelude::*;
use crate::text::{append_all, chars_of, join};
use crate::numtext::{dec, push_dec};

verus! {

/// The lower-case hexadecimal digit for `d < 16`.
pub open spec fn hex_digit(d: nat) -> char {
    if d < 10 {
        ((d + 48) as u32) as char
    } else {
        ((d + 87) as u32) as char
    }
}

/// How one character is written inside a JSON string: quote, backslash and
/// the common control characters get their short escape, other control
/// characters a `\u00XX` escape, everything else stands as it is.
pub open spec fn escape_char(c: char) -> Seq<char> {
    if c == '"' {
        seq!['\\', '"']
    } else if c == '\\' {
        seq!['\\', '\\']
    } else if c == '\n' {
        seq!['\\', 'n']
    } else if c == '\r' {
        seq!['\\', 'r']
    } else if c == '\t' {
        seq!['\\', 't']
    } else if (c as u32) < 0x20 {
        seq!['\\', 'u', '0', '0', hex_digit((c as u32 / 16) as nat), hex_digit((c as u32 % 16) as nat)]
    } else {
        seq![c]
    }
}

pub open spec fn escape(s: Seq<char>) -> Seq<char>
    decreases s.len(),
{
    if s.len() == 0 {
        Seq::<char>::empty()
    } else {
        escape(s.drop_last()) + escape_char(s.last())
    }
}

/// A JSON string literal holding `s`.
pub open spec fn json_string(s: Seq<char>) -> Seq<char> {
    seq!['"'] + escape(s) + seq!['"']
}

pub open spec fn json_bool_text(b: bool) -> Seq<char> {
    if b {
        seq!['t', 'r', 'u', 'e']
    } else {
        seq!['f', 'a', 'l', 's', 'e']
    }
}

pub open spec fn json_null() -> Seq<char> {
    seq!['n', 'u', 'l', 'l']
}

/// `"key":value`, preceded by a comma unless it is the first member.
pub open spec fn json_member(key: Seq<char>, value: Seq<char>, first: bool) -> Seq<char> {
    (if first {
        Seq::<char>::empty()
    } else {
        seq![',']
    }) + json_string(key) + seq![':'] + value
}

/// `[` the items separated by commas `]`.
pub open spec fn json_array(items: Seq<Seq<char>>) -> Seq<char> {
    seq!['['] + join(items, seq![',']) + seq![']']
}

pub proof fn lemma_escape_push(s: Seq<char>, c: char)
    ensures
        escape(s.push(c)) == escape(s) + escape_char(c),
{
    assert(s.push(c).drop_last() =~= s);
}

pub proof fn lemma_join_push(parts: Seq<Seq<char>>, x: Seq<char>, sep: Seq<char>)
    ensures
        join(parts.push(x), sep) == (if parts.len() == 0 {
            x
        } else {
            join(parts, sep) + sep + x
        }),
{
    assert(parts.push(x).drop_last() =~= parts);
    if parts.len() == 0 {
        assert(parts.push(x)[0] == x);
    }
}

fn hex_digit_char(d: u32) -> (c: char)
    requires
        d < 16,
    ensures
        c == hex_digit(d as nat),
{
    if d < 10 {
        char_from_ascii(d + 48)
    } else {
        char_from_ascii(d + 87)
    }
}

fn char_from_ascii(code: u32) -> (c: char)
    requires
        code < 128,
    ensures
        c == code as char,
{
    let b = code as u8;
    let c = b as char;
    assert(c as u32 == code);
    c
}

/// Appends the escaped form of one character.
pub fn push_escaped(out: &mut Vec<char>, c: char)
    ensures
        final(out)@ == old(out)@ + escape_char(c),
{
    if c == '"' {
        out.push('\\');
        out.push('"');
    } else if c == '\\' {
        out.push('\\');
        out.push('\\');
    } else if c == '\n' {
        out.push('\\');
        out.push('n');
    } else if c == '\r' {
        out.push('\\');
        out.push('r');
    } else if c == '\t' {
        out.push('\\');
        out.push('t');
    } else if (c as u32) < 0x20 {
        let code = c as u32;
        out.push('\\');
        out.push('u');
        out.push('0');
        out.push('0');
        out.push(hex_digit_char(code / 16));
        out.push(hex_digit_char(code % 16));
    } else {
        out.push(c);
    }
    assert(final(out)@ =~= old(out)@ + escape_char(c));
}

/// Appends `value` as a JSON string literal.
pub fn push_json_string(out: &mut Vec<char>, value: &Vec<char>)
    ensures
        final(out)@ == old(out)@ + json_string(value@),
{
    out.push('"');
    let ghost start = out@;
    let mut i: usize = 0;
    while i < value.len()
        invariant
            i <= value.len(),
            start == old(out)@ + seq!['"'],
            out@ == start + escape(value@.take(i as int)),
        decreases value.len() - i,
    {
        proof {
            lemma_escape_push(value@.take(i as int), value@[i as int]);
            assert(value@.take(i as int).push(value@[i as int]) =~= value@.take(i + 1));
        }
        push_escaped(out, value[i]);
        i += 1;
    }
    assert(value@.take(value.len() as int) =~= value@);
    out.push('"');
    assert(out@ =~= old(out)@ + json_string(value@));
}

/// A JSON string literal holding `value`.
pub fn json_str(value: &str) -> (out: Vec<char>)
    ensures
        out@ == json_string(value@),
{
    let v = chars_of(value);
    let mut out: Vec<char> = Vec::new();
    push_json_string(&mut out, &v);
    assert(out@ =~= json_string(value@));
    out
}

/// `true` or `false`.
pub fn json_bool(value: bool) -> (out: Vec<char>)
    ensures
        out@ == json_bool_text(value),
{
    let mut out: Vec<char> = Vec::new();
    if value {
        out.push('t');
        out.push('r');
        out.push('u');
        out.push('e');
    } else {
        out.push('f');
        out.push('a');
        out.push('l');
        out.push('s');
        out.push('e');
    }
    assert(out@ =~= json_bool_text(value));
    out
}

/// The decimal numeral of `value`.
pub fn json_u64(value: u64) -> (out: Vec<char>)
    ensures
        out@ == dec(value as nat),
{
    let mut out: Vec<char> = Vec::new();
    push_dec(&mut out, value);
    assert(out@ =~= dec(value as nat));
    out
}

/// `null`.
pub fn json_null_text() -> (out: Vec<char>)
    ensures
        out@ == json_null(),
{
    let mut out: Vec<char> = Vec::new();
    out.push('n');
    out.push('u');
    out.push('l');
    out.push('l');
    assert(out@ =~= json_null());
    out
}

/// The number, or `null` when there is none.
pub fn json_opt_u32(value: Option<u32>) -> (out: Vec<char>)
    ensures
        out@ == (match value {
            Some(n) => dec(n as nat),
            None => json_null(),
        }),
{
    match value {
        Some(n) => json_u64(n as u64),
        None => json_null_text(),
    }
}

/// The string literal, or `null` when there is none.
pub fn json_opt_str(value: Option<&str>) -> (out: Vec<char>)
    ensures
        out@ == (match value {
            Some(s) => json_string(s@),
            None => json_null(),
        }),
{
    match value {
        Some(s) => json_str(s),
        None => json_null_text(),
    }
}

/// Appends one member: a comma unless `first`, the quoted key, a colon and
/// the already encoded value.
pub fn append_pair(out: &mut Vec<char>, key: &str, value: &Vec<char>, first: bool)
    ensures
        final(out)@ == old(out)@ + json_member(key@, value@, first),
{
    if !first {
        out.push(',');
    }
    let k = json_str(key);
    append_all(out, &k);
    out.push(':');
    append_all(out, value);
    assert(final(out)@ =~= old(out)@ + json_member(key@, value@, first));
}

/// Appends the next array item, with a comma before every item but the
/// first; `done` items already stand in the array.
pub fn append_item(out: &mut Vec<char>, item: &Vec<char>, done: usize)
    ensures
        final(out)@ == old(out)@ + (if done == 0 {
            Seq::<char>::empty()
        } else {
            seq![',']
        }) + item@,
{
    if done > 0 {
        out.push(',');
    }
    append_all(out, item);
    assert(final(out)@ =~= old(out)@ + (if done == 0 {
        Seq::<char>::empty()
    } else {
        seq![',']
    }) + item@);
}

} // verus!
