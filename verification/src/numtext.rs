//! Decimal numerals: rendering and parsing, as `Display` and `FromStr` do it
//! for the unsigned integer types.
use vstd::prelude::*;
use crate::text::{is_ascii_digit, string_of};

verus! {

pub open spec fn digit_char(d: nat) -> char {
    ((48 + d) as u32) as char
}

/// The decimal numeral of `n`, without sign or leading zeros.
pub open spec fn dec(n: nat) -> Seq<char>
    decreases n,
{
    if n < 10 {
        seq![digit_char(n)]
    } else {
        dec(n / 10).push(digit_char(n % 10))
    }
}

pub open spec fn digit_value(c: char) -> nat {
    ((c as u32) - 48) as nat
}

pub open spec fn all_digits(s: Seq<char>) -> bool {
    forall|i: int| 0 <= i < s.len() ==> is_ascii_digit(#[trigger] s[i])
}

/// The value of a run of decimal digits.
pub open spec fn digits_value(s: Seq<char>) -> nat
    decreases s.len(),
{
    if s.len() == 0 {
        0
    } else {
        digits_value(s.drop_last()) * 10 + digit_value(s.last())
    }
}

/// The digits after an optional leading `+`.
pub open spec fn unsigned_body(s: Seq<char>) -> Seq<char> {
    if s.len() > 0 && s[0] == '+' {
        s.drop_first()
    } else {
        s
    }
}

/// What `str::parse` gives for an unsigned integer type whose maximum is `max`.
pub open spec fn parse_unsigned(s: Seq<char>, max: nat) -> Option<nat> {
    let body = unsigned_body(s);
    if body.len() > 0 && all_digits(body) && digits_value(body) <= max {
        Some(digits_value(body))
    } else {
        None
    }
}

pub open spec fn parse_u64_spec(s: Seq<char>) -> Option<u64> {
    match parse_unsigned(s, u64::MAX as nat) {
        Some(v) => Some(v as u64),
        None => None,
    }
}

pub open spec fn parse_u32_spec(s: Seq<char>) -> Option<u32> {
    match parse_unsigned(s, u32::MAX as nat) {
        Some(v) => Some(v as u32),
        None => None,
    }
}

pub open spec fn parse_u8_spec(s: Seq<char>) -> Option<u8> {
    match parse_unsigned(s, 255) {
        Some(v) => Some(v as u8),
        None => None,
    }
}

/// What `str::parse::<i32>` gives: an optional sign, then digits, in range.
pub open spec fn parse_i32_spec(s: Seq<char>) -> Option<i32> {
    if s.len() > 0 && s[0] == '-' {
        let body = s.drop_first();
        if body.len() > 0 && all_digits(body) && digits_value(body) <= 2147483648 {
            Some((0 - digits_value(body)) as i32)
        } else {
            None
        }
    } else {
        match parse_unsigned(s, 2147483647) {
            Some(v) => Some(v as i32),
            None => None,
        }
    }
}

/// The decimal numeral of a signed number, with a leading `-` when negative.
pub open spec fn int_text(n: int) -> Seq<char> {
    if n < 0 {
        seq!['-'] + dec((0 - n) as nat)
    } else {
        dec(n as nat)
    }
}

/// What a plain decimal numeral (optional `+`, digits, optional fraction)
/// gives as a whole number: the integer part, capped at `max`. Signs,
/// exponents and other float spellings are not read.
pub open spec fn decimal_whole(s: Seq<char>, max: nat) -> Option<nat> {
    let body = unsigned_body(s);
    let dot = crate::text::index_of(body, '.');
    let whole = if dot < 0 {
        body
    } else {
        body.take(dot)
    };
    let fraction = if dot < 0 {
        Seq::<char>::empty()
    } else {
        body.skip(dot + 1)
    };
    if all_digits(whole) && all_digits(fraction) && (whole.len() > 0 || fraction.len() > 0) {
        Some(
            if digits_value(whole) > max {
                max
            } else {
                digits_value(whole)
            },
        )
    } else {
        None
    }
}

/// A trimmed numeral, or zero when it does not parse.
pub open spec fn u64_or_zero(s: Seq<char>) -> u64 {
    match parse_u64_spec(crate::text::trim(s)) {
        Some(n) => n,
        None => 0,
    }
}

pub open spec fn u32_or_zero(s: Seq<char>) -> u32 {
    match parse_u32_spec(crate::text::trim(s)) {
        Some(n) => n,
        None => 0,
    }
}

fn digit_of(d: u64) -> (c: char)
    requires
        d < 10,
    ensures
        c == digit_char(d as nat),
{
    let b: u8 = (48 + d) as u8;
    b as char
}

/// Appends the decimal numeral of `n`.
pub fn push_dec(out: &mut Vec<char>, n: u64)
    ensures
        final(out)@ == old(out)@ + dec(n as nat),
    decreases n,
{
    if n >= 10 {
        push_dec(out, n / 10);
    }
    let c = digit_of(n % 10);
    out.push(c);
    proof {
        if n < 10 {
            assert(old(out)@ + dec(n as nat) =~= old(out)@.push(c));
        } else {
            assert(old(out)@ + dec(n as nat) =~= (old(out)@ + dec((n / 10) as nat)).push(c));
        }
    }
}

/// The decimal numeral of `n` (`n.to_string()`).
pub fn dec_string(n: u64) -> (s: String)
    ensures
        s@ == dec(n as nat),
{
    let mut v: Vec<char> = Vec::new();
    push_dec(&mut v, n);
    assert(v@ =~= dec(n as nat));
    string_of(&v)
}

proof fn lemma_digits_value_prefix_le(s: Seq<char>, i: int)
    requires
        0 <= i <= s.len(),
    ensures
        digits_value(s.take(i)) <= digits_value(s),
    decreases s.len() - i,
{
    if i < s.len() {
        assert(s.drop_last().take(i) =~= s.take(i));
        lemma_digits_value_prefix_le(s.drop_last(), i);
    } else {
        assert(s.take(i) =~= s);
    }
}

/// Parses an unsigned decimal numeral bounded by `max`.
fn parse_bounded(s: &Vec<char>, max: u64) -> (r: Option<u64>)
    requires
        max >= 9,
    ensures
        r == (match parse_unsigned(s@, max as nat) {
            Some(v) => Some(v as u64),
            None => None::<u64>,
        }),
{
    let start: usize = if s.len() > 0 && s[0] == '+' { 1 } else { 0 };
    let ghost body = unsigned_body(s@);
    assert(body =~= s@.skip(start as int));
    if start >= s.len() {
        return None;
    }
    let mut acc: u64 = 0;
    let mut i: usize = start;
    while i < s.len()
        invariant
            start <= i <= s.len(),
            body =~= s@.skip(start as int),
            body == unsigned_body(s@),
            body.len() > 0,
            all_digits(body.take(i - start)),
            acc as nat == digits_value(body.take(i - start)),
            acc <= max,
            max >= 9,
        decreases s.len() - i,
    {
        let c = s[i];
        if !('0' <= c && c <= '9') {
            assert(body[i - start] == c);
            assert(!all_digits(body));
            return None;
        }
        let d: u64 = ((c as u32) - 48) as u64;
        assert(body.take(i + 1 - start).drop_last() =~= body.take(i - start));
        if acc > (max - d) / 10 {
            proof {
                assert(digits_value(body.take(i + 1 - start)) > max) by (nonlinear_arith)
                    requires
                        digits_value(body.take(i + 1 - start)) == acc * 10 + d,
                        acc > (max - d) / 10,
                        d <= max,
                ;
                if all_digits(body) {
                    lemma_digits_value_prefix_le(body, i + 1 - start);
                }
            }
            return None;
        }
        assert(acc * 10 + d <= max) by (nonlinear_arith)
            requires
                acc <= (max - d) / 10,
                d <= max,
        ;
        acc = acc * 10 + d;
        i += 1;
        assert(all_digits(body.take(i - start)));
    }
    assert(body.take(i - start) =~= body);
    Some(acc)
}

pub fn parse_u64(s: &Vec<char>) -> (r: Option<u64>)
    ensures
        r == parse_u64_spec(s@),
{
    parse_bounded(s, u64::MAX)
}

pub fn parse_u32(s: &Vec<char>) -> (r: Option<u32>)
    ensures
        r == parse_u32_spec(s@),
{
    match parse_bounded(s, 0xffff_ffff) {
        Some(v) => Some(v as u32),
        None => None,
    }
}

pub fn parse_u8(s: &Vec<char>) -> (r: Option<u8>)
    ensures
        r == parse_u8_spec(s@),
{
    match parse_bounded(s, 255) {
        Some(v) => Some(v as u8),
        None => None,
    }
}

pub fn parse_i32(s: &Vec<char>) -> (r: Option<i32>)
    ensures
        r == parse_i32_spec(s@),
{
    if s.len() > 0 && s[0] == '-' {
        let mut body: Vec<char> = Vec::new();
        let mut i: usize = 1;
        while i < s.len()
            invariant
                1 <= i <= s.len(),
                body@ == s@.subrange(1, i as int),
            decreases s.len() - i,
        {
            body.push(s[i]);
            i += 1;
            assert(body@ =~= s@.subrange(1, i as int));
        }
        assert(body@ =~= s@.drop_first());
        if body.len() == 0 || body[0] == '+' {
            return None;
        }
        assert(unsigned_body(body@) == body@);
        match parse_bounded(&body, 2147483648) {
            Some(v) => {
                let neg: i64 = 0 - (v as i64);
                Some(neg as i32)
            },
            None => None,
        }
    } else {
        match parse_bounded(s, 2147483647) {
            Some(v) => Some(v as i32),
            None => None,
        }
    }
}

/// Appends the decimal numeral of a signed number.
pub fn push_i32(out: &mut Vec<char>, n: i32)
    ensures
        final(out)@ == old(out)@ + int_text(n as int),
{
    if n < 0 {
        out.push('-');
        let m: i64 = 0 - (n as i64);
        push_dec(out, m as u64);
        assert(final(out)@ =~= old(out)@ + int_text(n as int));
    } else {
        push_dec(out, n as u64);
    }
}

proof fn lemma_digits_value_grows(s: Seq<char>, c: char)
    requires
        '0' <= c <= '9',
    ensures
        digits_value(s.push(c)) >= digits_value(s),
        digits_value(s.push(c)) == 10 * digits_value(s) + digit_value(c),
{
    assert(s.push(c).drop_last() =~= s);
}

fn all_digits_vec(s: &Vec<char>) -> (r: bool)
    ensures
        r == all_digits(s@),
{
    let mut i: usize = 0;
    while i < s.len()
        invariant
            i <= s@.len(),
            forall|j: int| 0 <= j < i ==> is_ascii_digit(#[trigger] s@[j]),
        decreases s.len() - i,
    {
        if !('0' <= s[i] && s[i] <= '9') {
            assert(!is_ascii_digit(s@[i as int]));
            return false;
        }
        i += 1;
    }
    true
}

/// The whole part of a plain decimal numeral, capped at `max`.
pub fn parse_decimal_whole(s: &Vec<char>, max: u64) -> (r: Option<u64>)
    ensures
        match r {
            Some(v) => decimal_whole(s@, max as nat) == Some(v as nat),
            None => decimal_whole(s@, max as nat) is None,
        },
{
    let start: usize = if s.len() > 0 && s[0] == '+' { 1 } else { 0 };
    let mut body: Vec<char> = Vec::new();
    let mut k: usize = start;
    while k < s.len()
        invariant
            start <= k <= s@.len(),
            body@ == s@.subrange(start as int, k as int),
        decreases s.len() - k,
    {
        body.push(s[k]);
        k += 1;
        assert(body@ =~= s@.subrange(start as int, k as int));
    }
    assert(body@ =~= unsigned_body(s@));
    let (whole, fraction) = match crate::text::split_once_vec(&body, '.') {
        Some((a, b)) => (a, b),
        None => (body.clone(), Vec::new()),
    };
    proof {
        if crate::text::index_of(body@, '.') < 0 {
            assert(fraction@ =~= Seq::<char>::empty());
        }
    }
    if !all_digits_vec(&whole) || !all_digits_vec(&fraction) || (whole.len() == 0 && fraction.len() == 0) {
        return None;
    }
    let mut acc: u64 = 0;
    let mut i: usize = 0;
    while i < whole.len()
        invariant
            i <= whole@.len(),
            all_digits(whole@),
            acc as nat == (if digits_value(whole@.take(i as int)) > max as nat {
                max as nat
            } else {
                digits_value(whole@.take(i as int))
            }),
        decreases whole.len() - i,
    {
        let c = whole[i];
        assert(is_ascii_digit(whole@[i as int]));
        proof {
            lemma_digits_value_grows(whole@.take(i as int), c);
            assert(whole@.take(i as int).push(c) =~= whole@.take(i + 1));
        }
        let d: u64 = ((c as u32) - 48) as u64;
        if acc == max || d > max || acc > (max - d) / 10 {
            proof {
                if acc < max && d <= max {
                    assert(digits_value(whole@.take(i + 1)) > max) by (nonlinear_arith)
                        requires
                            digits_value(whole@.take(i + 1)) == 10 * digits_value(whole@.take(i as int)) + d,
                            digits_value(whole@.take(i as int)) == acc,
                            acc > (max - d) / 10,
                            d <= 9,
                    ;
                }
            }
            acc = max;
        } else {
            assert(acc * 10 + d <= max) by (nonlinear_arith)
                requires
                    acc <= (max - d) / 10,
                    d <= 9,
                    d <= max,
            ;
            acc = acc * 10 + d;
        }
        i += 1;
    }
    assert(whole@.take(whole@.len() as int) =~= whole@);
    Some(acc)
}

pub fn parse_u64_or_zero(s: &Vec<char>) -> (n: u64)
    ensures
        n == u64_or_zero(s@),
{
    match parse_u64(&crate::text::trim_vec(s)) {
        Some(n) => n,
        None => 0,
    }
}

pub fn parse_u32_or_zero(s: &Vec<char>) -> (n: u32)
    ensures
        n == u32_or_zero(s@),
{
    match parse_u32(&crate::text::trim_vec(s)) {
        Some(n) => n,
        None => 0,
    }
}

} // verus!
