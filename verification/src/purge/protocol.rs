//! The plan and result files the desktop and the elevated helper hand each
//! other: `key=value` lines. What one side writes, the other reads back.

use vstd::prelude::*;
use super::execute::{last_value, method_key_spec, number_field, one_line, or_empty, plan_body_spec, result_body_spec};
use super::plan::PlannedTarget;
use crate::numtext::{all_digits, dec, digit_char, digit_value, digits_value, parse_u64_spec};
use crate::text::{index_of, lemma_index_of, lemma_split_on_len, lines, split_on, split_once, strip_cr};

verus! {

pub open spec fn kv_line(p: (Seq<char>, Seq<char>)) -> Seq<char> {
    p.0 + seq!['='] + p.1
}

/// Each pair written as `key=value` and a line break.
pub open spec fn kv_body(ps: Seq<(Seq<char>, Seq<char>)>) -> Seq<char>
    decreases ps.len(),
{
    if ps.len() == 0 {
        Seq::empty()
    } else {
        kv_body(ps.drop_last()) + kv_line(ps.last()) + seq!['\n']
    }
}

pub open spec fn lacks(s: Seq<char>, c: char) -> bool {
    forall|i: int| 0 <= i < s.len() ==> s[i] != c
}

/// Keys without `=` or a line break, values without a line break.
pub open spec fn writable(ps: Seq<(Seq<char>, Seq<char>)>) -> bool {
    forall|i: int|
        0 <= i < ps.len() ==> lacks((#[trigger] ps[i]).0, '=') && lacks(ps[i].0, '\n') && lacks(ps[i].1, '\n')
}

/// The value of the last pair with key `k`, as a line reader sees it.
pub open spec fn last_written(ps: Seq<(Seq<char>, Seq<char>)>, k: Seq<char>) -> Option<Seq<char>>
    decreases ps.len(),
{
    if ps.len() == 0 {
        None
    } else if ps.last().0 == k {
        Some(strip_cr(ps.last().1))
    } else {
        last_written(ps.drop_last(), k)
    }
}

proof fn lemma_split_append(x: Seq<char>, y: Seq<char>, sep: char)
    requires
        lacks(y, sep),
    ensures
        split_on(x, sep).len() >= 1,
        split_on(x + y, sep) == split_on(x, sep).update(
            split_on(x, sep).len() - 1,
            split_on(x, sep).last() + y,
        ),
    decreases y.len(),
{
    lemma_split_on_len(x, sep);
    let p = split_on(x, sep);
    if y.len() == 0 {
        assert(x + y =~= x);
        assert(p.last() + y =~= p.last());
        assert(p.update(p.len() - 1, p.last() + y) =~= p);
    } else {
        let y0 = y.drop_last();
        lemma_split_append(x, y0, sep);
        assert((x + y).drop_last() =~= x + y0);
        assert((x + y).last() == y.last());
        assert((p.last() + y0).push(y.last()) =~= p.last() + y);
        assert(split_on(x + y, sep) =~= p.update(p.len() - 1, p.last() + y));
    }
}

proof fn lemma_split_body(ps: Seq<(Seq<char>, Seq<char>)>)
    requires
        writable(ps),
    ensures
        split_on(kv_body(ps), '\n') == ps.map_values(|p: (Seq<char>, Seq<char>)| kv_line(p)).push(Seq::<char>::empty()),
    decreases ps.len(),
{
    if ps.len() == 0 {
        assert(ps.map_values(|p: (Seq<char>, Seq<char>)| kv_line(p)).push(Seq::<char>::empty()) =~= seq![
            Seq::<char>::empty(),
        ]);
    } else {
        let prev = ps.drop_last();
        assert(writable(prev)) by {
            assert forall|i: int| 0 <= i < prev.len() implies lacks((#[trigger] prev[i]).0, '=') && lacks(
                prev[i].0,
                '\n',
            ) && lacks(prev[i].1, '\n') by {
                assert(prev[i] == ps[i]);
            }
        }
        lemma_split_body(prev);
        let b = kv_body(prev);
        let l = kv_line(ps.last());
        assert(lacks(ps[ps.len() - 1].0, '\n'));
        assert(lacks(l, '\n'));
        lemma_split_append(b, l, '\n');
        let s = kv_body(ps);
        assert(s.drop_last() =~= b + l);
        assert(s.last() == '\n');
        assert(split_on(s, '\n') =~= ps.map_values(|p: (Seq<char>, Seq<char>)| kv_line(p)).push(
            Seq::<char>::empty(),
        ));
    }
}

/// A `\r` ending a value is dropped with the line ending; nothing else is.
proof fn lemma_strip_line(p: (Seq<char>, Seq<char>))
    ensures
        strip_cr(kv_line(p)) == kv_line((p.0, strip_cr(p.1))),
{
    if p.1.len() > 0 && p.1.last() == '\r' {
        assert(kv_line(p).drop_last() =~= kv_line((p.0, p.1.drop_last())));
    } else {
        assert(kv_line(p).last() == (if p.1.len() > 0 {
            p.1.last()
        } else {
            '='
        }));
    }
}

/// A writable body reads back as one line per pair, each value less a
/// final carriage return.
pub proof fn lines_of_body(ps: Seq<(Seq<char>, Seq<char>)>)
    requires
        writable(ps),
    ensures
        lines(kv_body(ps)) == ps.map_values(|p: (Seq<char>, Seq<char>)| kv_line((p.0, strip_cr(p.1)))),
{
    lemma_split_body(ps);
    let p = split_on(kv_body(ps), '\n');
    assert(p.last().len() == 0);
    assert forall|i: int| 0 <= i < ps.len() implies strip_cr(kv_line(#[trigger] ps[i])) == kv_line(
        (ps[i].0, strip_cr(ps[i].1)),
    ) by {
        lemma_strip_line(ps[i]);
    }
    assert(lines(kv_body(ps)) =~= ps.map_values(|p: (Seq<char>, Seq<char>)| kv_line((p.0, strip_cr(p.1)))));
}

proof fn lemma_split_line(p: (Seq<char>, Seq<char>))
    requires
        lacks(p.0, '='),
    ensures
        split_once(kv_line(p), '=') == Some((p.0, p.1)),
{
    let s = kv_line(p);
    assert forall|j: int| 0 <= j < p.0.len() implies s[j] != '=' by {
        assert(s[j] == p.0[j]);
    }
    lemma_index_of(s, '=', p.0.len() as int);
    assert(s.take(p.0.len() as int) =~= p.0);
    assert(s.skip((p.0.len() + 1) as int) =~= p.1);
}

/// The last line with a key holds the last value written for it.
pub proof fn last_value_of_body(ps: Seq<(Seq<char>, Seq<char>)>, k: Seq<char>)
    requires
        writable(ps),
    ensures
        last_value(lines(kv_body(ps)), k) == last_written(ps, k),
    decreases ps.len(),
{
    lines_of_body(ps);
    let ls = ps.map_values(|p: (Seq<char>, Seq<char>)| kv_line((p.0, strip_cr(p.1))));
    if ps.len() > 0 {
        let prev = ps.drop_last();
        assert(writable(prev)) by {
            assert forall|i: int| 0 <= i < prev.len() implies lacks((#[trigger] prev[i]).0, '=') && lacks(
                prev[i].0,
                '\n',
            ) && lacks(prev[i].1, '\n') by {
                assert(prev[i] == ps[i]);
            }
        }
        last_value_of_body(prev, k);
        lines_of_body(prev);
        assert(ls.drop_last() =~= prev.map_values(|p: (Seq<char>, Seq<char>)| kv_line((p.0, strip_cr(p.1)))));
        let q = ps.last();
        assert(lacks(ps[ps.len() - 1].0, '='));
        lemma_split_line((q.0, strip_cr(q.1)));
    }
}

proof fn lemma_dec(n: nat)
    ensures
        dec(n).len() > 0,
        all_digits(dec(n)),
        digits_value(dec(n)) == n,
    decreases n,
{
    if n < 10 {
        assert(digit_value(digit_char(n)) == n);
        assert(dec(n).drop_last() =~= Seq::<char>::empty());
        assert(digits_value(dec(n)) == digits_value(dec(n).drop_last()) * 10 + digit_value(dec(n).last()));
    } else {
        lemma_dec(n / 10);
        assert(dec(n).drop_last() =~= dec(n / 10));
        assert(dec(n).last() == digit_char(n % 10));
        assert(digit_value(digit_char(n % 10)) == n % 10);
        assert(digits_value(dec(n)) == digits_value(dec(n / 10)) * 10 + n % 10);
        assert((n / 10) * 10 + n % 10 == n) by (nonlinear_arith);
    }
}

proof fn lemma_last_written(ps: Seq<(Seq<char>, Seq<char>)>, k: Seq<char>, i: int)
    requires
        0 <= i < ps.len(),
        ps[i].0 == k,
        forall|j: int| i < j < ps.len() ==> (#[trigger] ps[j]).0 != k,
    ensures
        last_written(ps, k) == Some(strip_cr(ps[i].1)),
    decreases ps.len(),
{
    if i < ps.len() - 1 {
        let prev = ps.drop_last();
        assert(ps[ps.len() - 1].0 != k);
        assert forall|j: int| i < j < prev.len() implies (#[trigger] prev[j]).0 != k by {
            assert(prev[j] == ps[j]);
        }
        lemma_last_written(prev, k, i);
    }
}

/// A number written in decimal reads back as itself.
pub proof fn decimal_reads_back(n: u64)
    ensures
        strip_cr(dec(n as nat)) == dec(n as nat),
        number_field(Some(dec(n as nat))) == n,
{
    lemma_dec(n as nat);
    let d = dec(n as nat);
    assert(crate::text::is_ascii_digit(d[d.len() - 1]));
    assert(crate::text::is_ascii_digit(d[0]));
    assert(parse_u64_spec(d) == Some(n));
}

pub open spec fn flag_text(ok: bool) -> Seq<char> {
    if ok {
        "true"@
    } else {
        "false"@
    }
}

/// The pairs a helper result file is written from, in order.
pub open spec fn result_pairs(
    job_id: Seq<char>,
    letter: Seq<char>,
    method: Seq<char>,
    ok: bool,
    message: Seq<char>,
    bytes: u64,
) -> Seq<(Seq<char>, Seq<char>)> {
    seq![
        ("job_id"@, job_id),
        ("letter"@, letter),
        ("method"@, method),
        ("ok"@, flag_text(ok)),
        ("message"@, message),
        ("bytes_processed"@, dec(bytes as nat)),
    ]
}

proof fn lemma_digits_lack(n: nat, c: char)
    requires
        !crate::text::is_ascii_digit(c),
    ensures
        lacks(dec(n), c),
{
    lemma_dec(n);
    assert forall|i: int| 0 <= i < dec(n).len() implies dec(n)[i] != c by {
        assert(crate::text::is_ascii_digit(dec(n)[i]));
    }
}

proof fn lemma_result_body(
    job_id: Seq<char>,
    letter: Seq<char>,
    method: Seq<char>,
    ok: bool,
    message: Seq<char>,
    bytes: u64,
)
    requires
        lacks(job_id, '\n'),
        lacks(letter, '\n'),
        lacks(method, '\n'),
        lacks(message, '\n'),
    ensures
        result_body_spec(job_id, letter, method, ok, message, bytes) == kv_body(
            result_pairs(job_id, letter, method, ok, message, bytes),
        ),
        writable(result_pairs(job_id, letter, method, ok, message, bytes)),
{
    reveal_strlit("job_id");
    reveal_strlit("letter");
    reveal_strlit("method");
    reveal_strlit("ok");
    reveal_strlit("message");
    reveal_strlit("bytes_processed");
    reveal_strlit("true");
    reveal_strlit("false");
    reveal_strlit("job_id=");
    reveal_strlit("\nletter=");
    reveal_strlit("\nmethod=");
    reveal_strlit("\nok=");
    reveal_strlit("\nmessage=");
    reveal_strlit("\nbytes_processed=");
    reveal_strlit("\n");
    let ps = result_pairs(job_id, letter, method, ok, message, bytes);
    lemma_digits_lack(bytes as nat, '\n');
    assert(lacks(flag_text(ok), '\n'));
    assert(writable(ps)) by {
        assert forall|i: int| 0 <= i < ps.len() implies lacks((#[trigger] ps[i]).0, '=') && lacks(
            ps[i].0,
            '\n',
        ) && lacks(ps[i].1, '\n') by {}
    }
    reveal_with_fuel(kv_body, 7);
    assert(result_body_spec(job_id, letter, method, ok, message, bytes) =~= kv_body(ps));
}

proof fn lemma_result_lookup(
    job_id: Seq<char>,
    letter: Seq<char>,
    method: Seq<char>,
    ok: bool,
    message: Seq<char>,
    bytes: u64,
)
    ensures
        ({
            let ps = result_pairs(job_id, letter, method, ok, message, bytes);
            &&& last_written(ps, "job_id"@) == Some(strip_cr(job_id))
            &&& last_written(ps, "letter"@) == Some(strip_cr(letter))
            &&& last_written(ps, "method"@) == Some(strip_cr(method))
            &&& last_written(ps, "ok"@) == Some(strip_cr(flag_text(ok)))
            &&& last_written(ps, "message"@) == Some(strip_cr(message))
            &&& last_written(ps, "bytes_processed"@) == Some(strip_cr(dec(bytes as nat)))
        }),
{
    reveal_strlit("job_id");
    reveal_strlit("letter");
    reveal_strlit("method");
    reveal_strlit("ok");
    reveal_strlit("message");
    reveal_strlit("bytes_processed");
    let ps = result_pairs(job_id, letter, method, ok, message, bytes);
    assert("job_id"@[0] != "letter"@[0] && "job_id"@[0] != "method"@[0] && "letter"@[0] != "method"@[0]);
    assert(ps[0].0 == "job_id"@ && ps[1].0 == "letter"@ && ps[2].0 == "method"@ && ps[3].0 == "ok"@
        && ps[4].0 == "message"@ && ps[5].0 == "bytes_processed"@);
    assert forall|i: int, j: int| 0 <= i < j < 6 implies (#[trigger] ps[j]).0 != (#[trigger] ps[i]).0 by {
        assert(0 <= i < 6 && 0 <= j < 6);
        if i == 0 {
            assert(j == 1 || j == 2 || j == 3 || j == 4 || j == 5);
        } else if i == 1 {
            assert(j == 2 || j == 3 || j == 4 || j == 5);
        } else if i == 2 {
            assert(j == 3 || j == 4 || j == 5);
        } else if i == 3 {
            assert(j == 4 || j == 5);
        } else {
            assert(i == 4 && j == 5 || i == 5);
        }
    }
    lemma_last_written(ps, "job_id"@, 0);
    lemma_last_written(ps, "letter"@, 1);
    lemma_last_written(ps, "method"@, 2);
    lemma_last_written(ps, "ok"@, 3);
    lemma_last_written(ps, "message"@, 4);
    lemma_last_written(ps, "bytes_processed"@, 5);
}

/// The desktop reads back from a helper result file what the helper wrote:
/// the job, volume, method and message (each less a final carriage return),
/// whether it succeeded, and the bytes processed.
pub proof fn helper_result_reads_back(
    job_id: Seq<char>,
    letter: Seq<char>,
    method: Seq<char>,
    ok: bool,
    message: Seq<char>,
    bytes: u64,
)
    requires
        lacks(job_id, '\n'),
        lacks(letter, '\n'),
        lacks(method, '\n'),
        lacks(message, '\n'),
    ensures
        ({
            let ls = lines(result_body_spec(job_id, letter, method, ok, message, bytes));
            &&& or_empty(last_value(ls, "job_id"@)) == strip_cr(job_id)
            &&& or_empty(last_value(ls, "letter"@)) == strip_cr(letter)
            &&& or_empty(last_value(ls, "method"@)) == strip_cr(method)
            &&& (last_value(ls, "ok"@) == Some("true"@)) == ok
            &&& or_empty(last_value(ls, "message"@)) == strip_cr(message)
            &&& number_field(last_value(ls, "bytes_processed"@)) == bytes
        }),
{
    let ps = result_pairs(job_id, letter, method, ok, message, bytes);
    lemma_result_body(job_id, letter, method, ok, message, bytes);
    lemma_result_lookup(job_id, letter, method, ok, message, bytes);
    last_value_of_body(ps, "job_id"@);
    last_value_of_body(ps, "letter"@);
    last_value_of_body(ps, "method"@);
    last_value_of_body(ps, "ok"@);
    last_value_of_body(ps, "message"@);
    last_value_of_body(ps, "bytes_processed"@);
    decimal_reads_back(bytes);
    assert(strip_cr(flag_text(ok)) == flag_text(ok)) by {
        reveal_strlit("true");
        reveal_strlit("false");
    }
    assert((flag_text(ok) == "true"@) == ok) by {
        reveal_strlit("true");
        reveal_strlit("false");
    }
}

/// A value that stays one line and loses nothing at its end.
pub open spec fn clean(v: Seq<char>) -> bool {
    lacks(v, '\n') && strip_cr(v) == v
}

proof fn lemma_method_key_clean(m: super::media::MethodClass)
    ensures
        clean(method_key_spec(m)),
{
    reveal_strlit("overwrite_clear");
    reveal_strlit("ata_secure_erase");
    reveal_strlit("nvme_sanitize");
    reveal_strlit("refused");
}

proof fn lemma_media_key_clean(c: super::media::MediaClass)
    ensures
        clean(c.key()),
{
    reveal_strlit("magnetic_hdd");
    reveal_strlit("sata_ssd");
    reveal_strlit("nvme");
    reveal_strlit("usb_hdd");
    reveal_strlit("usb_flash");
    reveal_strlit("optical");
    reveal_strlit("network");
    reveal_strlit("system_disk");
    reveal_strlit("unknown");
}

proof fn lemma_one_line_lacks(v: Seq<char>)
    ensures
        lacks(one_line(v), '\n'),
{
}

/// The pairs a helper plan file is written from, in order.
pub open spec fn plan_pairs(job_id: Seq<char>, t: PlannedTarget) -> Seq<(Seq<char>, Seq<char>)> {
    seq![
        ("job_id"@, job_id),
        ("letter"@, t.letter@),
        ("disk_index"@, dec(t.disk_index as nat)),
        ("method"@, method_key_spec(t.method)),
        ("size_bytes"@, dec(t.size_bytes as nat)),
        ("serial"@, one_line(t.serial@)),
        ("model"@, one_line(t.model@)),
        ("media_class"@, t.media_class.key()),
        ("bus"@, one_line(t.bus@)),
    ]
}

#[verifier::rlimit(60)]
proof fn lemma_plan_body(job_id: Seq<char>, t: PlannedTarget)
    requires
        lacks(job_id, '\n'),
        lacks(t.letter@, '\n'),
    ensures
        plan_body_spec(job_id, t) == kv_body(plan_pairs(job_id, t)),
        writable(plan_pairs(job_id, t)),
{
    reveal_strlit("job_id");
    reveal_strlit("letter");
    reveal_strlit("disk_index");
    reveal_strlit("method");
    reveal_strlit("size_bytes");
    reveal_strlit("serial");
    reveal_strlit("model");
    reveal_strlit("media_class");
    reveal_strlit("bus");
    reveal_strlit("job_id=");
    reveal_strlit("\nletter=");
    reveal_strlit("\ndisk_index=");
    reveal_strlit("\nmethod=");
    reveal_strlit("\nsize_bytes=");
    reveal_strlit("\nserial=");
    reveal_strlit("\nmodel=");
    reveal_strlit("\nmedia_class=");
    reveal_strlit("\nbus=");
    reveal_strlit("\n");
    let ps = plan_pairs(job_id, t);
    lemma_digits_lack(t.disk_index as nat, '\n');
    lemma_digits_lack(t.size_bytes as nat, '\n');
    lemma_method_key_clean(t.method);
    lemma_media_key_clean(t.media_class);
    lemma_one_line_lacks(t.serial@);
    lemma_one_line_lacks(t.model@);
    lemma_one_line_lacks(t.bus@);
    assert(writable(ps)) by {
        assert forall|i: int| 0 <= i < ps.len() implies lacks((#[trigger] ps[i]).0, '=') && lacks(
            ps[i].0,
            '\n',
        ) && lacks(ps[i].1, '\n') by {}
    }
    reveal_with_fuel(kv_body, 10);
    assert(plan_body_spec(job_id, t) =~= kv_body(ps));
}

proof fn lemma_plan_lookup(job_id: Seq<char>, t: PlannedTarget)
    ensures
        ({
            let ps = plan_pairs(job_id, t);
            &&& last_written(ps, "job_id"@) == Some(strip_cr(job_id))
            &&& last_written(ps, "letter"@) == Some(strip_cr(t.letter@))
            &&& last_written(ps, "method"@) == Some(strip_cr(method_key_spec(t.method)))
            &&& last_written(ps, "size_bytes"@) == Some(strip_cr(dec(t.size_bytes as nat)))
            &&& last_written(ps, "media_class"@) == Some(strip_cr(t.media_class.key()))
            &&& last_written(ps, "bus"@) == Some(strip_cr(one_line(t.bus@)))
        }),
{
    reveal_strlit("job_id");
    reveal_strlit("letter");
    reveal_strlit("disk_index");
    reveal_strlit("method");
    reveal_strlit("size_bytes");
    reveal_strlit("serial");
    reveal_strlit("model");
    reveal_strlit("media_class");
    reveal_strlit("bus");
    let ps = plan_pairs(job_id, t);
    let keys = seq![
        "job_id"@,
        "letter"@,
        "disk_index"@,
        "method"@,
        "size_bytes"@,
        "serial"@,
        "model"@,
        "media_class"@,
        "bus"@,
    ];
    assert(forall|i: int| 0 <= i < 9 ==> (#[trigger] ps[i]).0 == keys[i]);
    assert(keys[0][0] != keys[1][0] && keys[0][0] != keys[3][0] && keys[0][0] != keys[5][0]);
    assert(keys[1][0] != keys[3][0] && keys[1][0] != keys[5][0] && keys[3][0] != keys[5][0]);
    assert(keys[2][0] != keys[4][0]);
    assert forall|i: int, j: int| 0 <= i < j < 9 implies keys[j] != keys[i] by {
        assert(0 <= i < 9 && 0 <= j < 9);
        if keys[j] == keys[i] {
            assert(keys[j].len() == keys[i].len());
            assert(keys[j][0] == keys[i][0]);
        }
    }
    lemma_last_written(ps, "job_id"@, 0);
    lemma_last_written(ps, "letter"@, 1);
    lemma_last_written(ps, "method"@, 3);
    lemma_last_written(ps, "size_bytes"@, 4);
    lemma_last_written(ps, "media_class"@, 7);
    lemma_last_written(ps, "bus"@, 8);
}

/// The helper reads back from a plan file what the desktop wrote: the job
/// and volume (each less a final carriage return), the method, the size,
/// the media class and the bus (on one line).
pub proof fn helper_plan_reads_back(job_id: Seq<char>, t: PlannedTarget)
    requires
        lacks(job_id, '\n'),
        lacks(t.letter@, '\n'),
    ensures
        ({
            let ls = lines(plan_body_spec(job_id, t));
            &&& or_empty(last_value(ls, "job_id"@)) == strip_cr(job_id)
            &&& or_empty(last_value(ls, "letter"@)) == strip_cr(t.letter@)
            &&& or_empty(last_value(ls, "method"@)) == method_key_spec(t.method)
            &&& number_field(last_value(ls, "size_bytes"@)) == t.size_bytes
            &&& or_empty(last_value(ls, "media_class"@)) == t.media_class.key()
            &&& or_empty(last_value(ls, "bus"@)) == strip_cr(one_line(t.bus@))
        }),
{
    let ps = plan_pairs(job_id, t);
    lemma_plan_body(job_id, t);
    lemma_plan_lookup(job_id, t);
    last_value_of_body(ps, "job_id"@);
    last_value_of_body(ps, "letter"@);
    last_value_of_body(ps, "method"@);
    last_value_of_body(ps, "size_bytes"@);
    last_value_of_body(ps, "media_class"@);
    last_value_of_body(ps, "bus"@);
    decimal_reads_back(t.size_bytes);
    lemma_method_key_clean(t.method);
    lemma_media_key_clean(t.media_class);
}

} // verus!
