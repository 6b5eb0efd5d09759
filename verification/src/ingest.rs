//! Ingestion of comma-separated motion recordings.
//!
//! A line holds exactly fourteen comma-separated fields: twelve motion
//! channels as plain decimal numbers, a zero-based activity label, and a
//! subject token kept verbatim. Channel numbers follow the grammar
//! `['-'] digits ['.' digits]` (either digit group may be empty, not both),
//! are scaled to milli-units, and fractional digits beyond the third are
//! truncated toward zero; the integer part is capped at fifteen digits so
//! every value fits the channel type. Lines that do not fit this shape are
//! dropped, never an error.

use vstd::prelude::*;
use crate::classify::{CHANNEL_LIMIT, MotionRecord};

verus! {

/// Field separator within a line.
pub const COMMA: u8 = 44;

/// Record separator between lines.
pub const NEWLINE: u8 = 10;

/// Carriage return, stripped from a line end before parsing.
pub const CARRIAGE_RETURN: u8 = 13;

/// Leading sign of a negative number.
pub const MINUS: u8 = 45;

/// Decimal point.
pub const DOT: u8 = 46;

/// An ASCII decimal digit.
pub open spec fn spec_is_digit(b: u8) -> bool {
    48 <= b <= 57
}

/// Every byte is an ASCII decimal digit.
pub open spec fn spec_all_digits(s: Seq<u8>) -> bool {
    forall|i: int| 0 <= i < s.len() ==> spec_is_digit(#[trigger] s[i])
}

/// Value of a digit string read in base ten.
pub open spec fn spec_digits_value(s: Seq<u8>) -> int
    decreases s.len(),
{
    if s.len() == 0 {
        0
    } else {
        spec_digits_value(s.drop_last()) * 10 + (s.last() - 48)
    }
}

/// Ten to the power `n`.
pub open spec fn spec_pow10(n: nat) -> int
    decreases n,
{
    if n == 0 {
        1
    } else {
        10 * spec_pow10((n - 1) as nat)
    }
}

/// A digit string's value is below ten to its length.
pub proof fn lemma_digits_value_bound(s: Seq<u8>)
    requires
        spec_all_digits(s),
    ensures
        0 <= spec_digits_value(s) < spec_pow10(s.len()),
    decreases s.len(),
{
    if s.len() > 0 {
        assert(spec_all_digits(s.drop_last())) by {
            assert(forall|i: int|
                0 <= i < s.len() - 1 ==> spec_is_digit(#[trigger] s.drop_last()[i]));
        }
        lemma_digits_value_bound(s.drop_last());
        assert(spec_is_digit(s.last()));
    }
}

proof fn lemma_pow10_monotone(a: nat, b: nat)
    requires
        a <= b,
    ensures
        spec_pow10(a) <= spec_pow10(b),
        spec_pow10(a) >= 1,
    decreases b,
{
    if b > 0 {
        if a == b {
            lemma_pow10_monotone((a - 1) as nat, (b - 1) as nat);
        } else {
            lemma_pow10_monotone(a, (b - 1) as nat);
        }
    }
}

proof fn lemma_pow10_15()
    ensures
        spec_pow10(15) == 1_000_000_000_000_000,
{
    reveal_with_fuel(spec_pow10, 17);
}

/// First index holding byte `b`, or the length when `b` is absent.
pub open spec fn spec_find_byte(s: Seq<u8>, b: u8) -> int
    decreases s.len(),
{
    if s.len() == 0 {
        0
    } else if s[0] == b {
        0
    } else {
        1 + spec_find_byte(s.skip(1), b)
    }
}

/// `spec_find_byte` lands on the first occurrence: it stays within the
/// sequence, points at `b` when `b` occurs, and nothing before it is `b`.
pub proof fn lemma_find_byte_props(s: Seq<u8>, b: u8)
    ensures
        0 <= spec_find_byte(s, b) <= s.len(),
        spec_find_byte(s, b) < s.len() ==> s[spec_find_byte(s, b)] == b,
        forall|k: int| 0 <= k < spec_find_byte(s, b) ==> s[k] != b,
    decreases s.len(),
{
    if s.len() > 0 && s[0] != b {
        lemma_find_byte_props(s.skip(1), b);
        let f = spec_find_byte(s, b);
        assert forall|k: int| 0 <= k < f implies s[k] != b by {
            if k > 0 {
                assert(s.skip(1)[k - 1] == s[k]);
            }
        }
        if f < s.len() {
            assert(s.skip(1)[f - 1] == s[f]);
        }
    }
}

/// Find the first occurrence of `b` in `s`, or `s.len()` when absent.
pub fn find_byte(s: &[u8], b: u8) -> (r: usize)
    ensures
        r == spec_find_byte(s@, b),
{
    let n = s.len();
    let mut i: usize = 0;
    while i < n
        invariant
            0 <= i <= n,
            n == s@.len(),
            forall|k: int| 0 <= k < i ==> s@[k] != b,
        decreases n - i,
    {
        if s[i] == b {
            proof {
                lemma_find_byte_props(s@, b);
                let f = spec_find_byte(s@, b);
                assert(f <= i) by {
                    if f > i {
                        assert(s@[i as int] != b);
                    }
                }
            }
            return i;
        }
        i = i + 1;
    }
    proof {
        lemma_find_byte_props(s@, b);
        let f = spec_find_byte(s@, b);
        if f < s@.len() {
            assert(s@[f] != b);
        }
    }
    n
}

/// Split on a separator byte: the fields between separators, in order. An
/// empty input is one empty field; a trailing separator yields a final
/// empty field.
pub open spec fn spec_split(s: Seq<u8>, sep: u8) -> Seq<Seq<u8>>
    decreases s.len(),
{
    if s.len() == 0 {
        seq![Seq::<u8>::empty()]
    } else if s[0] == sep {
        seq![Seq::<u8>::empty()] + spec_split(s.skip(1), sep)
    } else {
        let rest = spec_split(s.skip(1), sep);
        seq![seq![s[0]] + rest[0]] + rest.skip(1)
    }
}

/// A split always has at least one field.
pub proof fn lemma_split_nonempty(s: Seq<u8>, sep: u8)
    ensures
        spec_split(s, sep).len() >= 1,
    decreases s.len(),
{
    if s.len() > 0 && s[0] != sep {
        lemma_split_nonempty(s.skip(1), sep);
    }
}

/// Split a byte string on a separator byte.
pub fn split_on(s: &[u8], sep: u8) -> (r: Vec<Vec<u8>>)
    ensures
        r@.map_values(|v: Vec<u8>| v@) =~~= spec_split(s@, sep),
{
    let n = s.len();
    let mut fields: Vec<Vec<u8>> = Vec::new();
    let mut cur: Vec<u8> = Vec::new();
    let mut i: usize = 0;
    proof {
        assert(s@.skip(0) =~= s@);
        lemma_split_nonempty(s@, sep);
    }
    while i < n
        invariant
            0 <= i <= n,
            n == s@.len(),
            spec_split(s@.skip(i as int), sep).len() >= 1,
            spec_split(s@, sep) =~~= fields@.map_values(|v: Vec<u8>| v@) + seq![
                cur@ + spec_split(s@.skip(i as int), sep)[0],
            ] + spec_split(s@.skip(i as int), sep).skip(1),
        decreases n - i,
    {
        let ghost tail = s@.skip(i as int);
        proof {
            assert(tail.len() > 0);
            assert(tail[0] == s@[i as int]);
            assert(tail.skip(1) =~= s@.skip(i + 1));
            lemma_split_nonempty(s@.skip(i + 1), sep);
        }
        let b = s[i];
        if b == sep {
            proof {
                assert(spec_split(tail, sep) =~~= seq![Seq::<u8>::empty()] + spec_split(
                    s@.skip(i + 1),
                    sep,
                ));
                assert(cur@ + spec_split(tail, sep)[0] =~= cur@);
            }
            fields.push(cur);
            cur = Vec::new();
            proof {
                assert(fields@.map_values(|v: Vec<u8>| v@) =~~= fields@.drop_last().map_values(
                    |v: Vec<u8>| v@,
                ) + seq![fields@.last()@]);
                assert(spec_split(s@, sep) =~~= fields@.map_values(|v: Vec<u8>| v@) + seq![
                    Seq::<u8>::empty() + spec_split(s@.skip(i + 1), sep)[0],
                ] + spec_split(s@.skip(i + 1), sep).skip(1));
            }
        } else {
            proof {
                let rest = spec_split(s@.skip(i + 1), sep);
                assert(spec_split(tail, sep) =~~= seq![seq![tail[0]] + rest[0]] + rest.skip(1));
                assert(cur@ + (seq![tail[0]] + rest[0]) =~= (cur@ + seq![tail[0]]) + rest[0]);
                assert(cur@.push(b) =~= cur@ + seq![tail[0]]);
            }
            cur.push(b);
        }
        i = i + 1;
    }
    proof {
        assert(s@.skip(n as int) =~= Seq::<u8>::empty());
        assert(spec_split(Seq::<u8>::empty(), sep) =~~= seq![Seq::<u8>::empty()]);
        assert(cur@ + Seq::<u8>::empty() =~= cur@);
    }
    fields.push(cur);
    proof {
        assert(fields@.map_values(|v: Vec<u8>| v@) =~~= fields@.drop_last().map_values(
            |v: Vec<u8>| v@,
        ) + seq![fields@.last()@]);
    }
    fields
}

/// Milli-value of the fractional digit string: the first three digits,
/// padded with zeros on the right.
pub open spec fn spec_frac_milli(fp: Seq<u8>) -> int {
    if fp.len() >= 3 {
        spec_digits_value(fp.take(3))
    } else {
        spec_digits_value(fp) * spec_pow10((3 - fp.len()) as nat)
    }
}

/// Parse of one decimal field into milli-units: an optional leading minus,
/// an integer digit group of at most fifteen digits and a fractional digit
/// group separated by a dot, at least one group non-empty. Anything else is
/// no value.
pub open spec fn spec_parse_milli(f: Seq<u8>) -> Option<int> {
    let neg = f.len() > 0 && f[0] == MINUS;
    let body = if neg {
        f.skip(1)
    } else {
        f
    };
    let dot = spec_find_byte(body, DOT);
    let ip = if dot < body.len() {
        body.take(dot)
    } else {
        body
    };
    let fp = if dot < body.len() {
        body.skip(dot + 1)
    } else {
        Seq::<u8>::empty()
    };
    if spec_all_digits(ip) && spec_all_digits(fp) && ip.len() + fp.len() > 0 && ip.len() <= 15 {
        let magnitude = spec_digits_value(ip) * 1000 + spec_frac_milli(fp);
        Some(
            if neg {
                -magnitude
            } else {
                magnitude
            },
        )
    } else {
        None
    }
}

/// Whether every byte of the slice is an ASCII digit.
fn check_digits(s: &[u8]) -> (r: bool)
    ensures
        r == spec_all_digits(s@),
{
    let n = s.len();
    let mut i: usize = 0;
    while i < n
        invariant
            0 <= i <= n,
            n == s@.len(),
            forall|k: int| 0 <= k < i ==> spec_is_digit(#[trigger] s@[k]),
        decreases n - i,
    {
        let b = s[i];
        if b < 48 || b > 57 {
            return false;
        }
        i = i + 1;
    }
    true
}

/// Base-ten value of a digit string of at most fifteen digits.
fn digits_value(s: &[u8]) -> (r: u64)
    requires
        spec_all_digits(s@),
        s@.len() <= 15,
    ensures
        r == spec_digits_value(s@),
        r < 1_000_000_000_000_000,
{
    let n = s.len();
    let mut acc: u64 = 0;
    let mut i: usize = 0;
    proof {
        assert(s@.take(0) =~= Seq::<u8>::empty());
        lemma_pow10_15();
    }
    while i < n
        invariant
            0 <= i <= n,
            n == s@.len() <= 15,
            spec_all_digits(s@),
            acc == spec_digits_value(s@.take(i as int)),
            acc < spec_pow10(i as nat),
            spec_pow10(i as nat) <= 1_000_000_000_000_000,
        decreases n - i,
    {
        let b = s[i];
        proof {
            assert(spec_is_digit(s@[i as int]));
            assert(s@.take(i + 1).drop_last() =~= s@.take(i as int));
            assert(s@.take(i + 1).last() == s@[i as int]);
            assert(spec_pow10((i + 1) as nat) == 10 * spec_pow10(i as nat));
            lemma_pow10_monotone((i + 1) as nat, 15);
            lemma_pow10_15();
        }
        acc = acc * 10 + (b - 48) as u64;
        i = i + 1;
    }
    proof {
        assert(s@.take(n as int) =~= s@);
        lemma_pow10_monotone(n as nat, 15);
        lemma_pow10_15();
    }
    acc
}

/// Milli-value of a fractional digit group: first three digits, zero
/// padded.
fn frac_value(s: &[u8]) -> (r: u64)
    requires
        spec_all_digits(s@),
    ensures
        r == spec_frac_milli(s@),
        r < 1000,
{
    if s.len() >= 3 {
        let head = vstd::slice::slice_subrange(s, 0, 3);
        proof {
            assert(head@ =~= s@.take(3));
            lemma_digits_value_bound(s@.take(3));
            reveal_with_fuel(spec_pow10, 5);
        }
        digits_value(head)
    } else if s.len() == 2 {
        proof {
            lemma_digits_value_bound(s@);
            reveal_with_fuel(spec_pow10, 5);
        }
        digits_value(s) * 10
    } else if s.len() == 1 {
        proof {
            lemma_digits_value_bound(s@);
            reveal_with_fuel(spec_pow10, 5);
        }
        digits_value(s) * 100
    } else {
        proof {
            reveal_with_fuel(spec_pow10, 5);
        }
        0
    }
}

/// Parse one decimal field into milli-units, or nothing when the field does
/// not fit the grammar. A parsed value always fits within the channel
/// limit.
pub fn parse_milli(f: &[u8]) -> (r: Option<i64>)
    ensures
        r is Some <==> spec_parse_milli(f@) is Some,
        r is Some ==> r.unwrap() == spec_parse_milli(f@).unwrap(),
        r is Some ==> -CHANNEL_LIMIT <= r.unwrap() <= CHANNEL_LIMIT,
{
    let neg = f.len() > 0 && f[0] == MINUS;
    let body = if neg {
        vstd::slice::slice_subrange(f, 1, f.len())
    } else {
        f
    };
    proof {
        if neg {
            assert(body@ =~= f@.skip(1));
        }
    }
    let dot = find_byte(body, DOT);
    let (ip, fp) = if dot < body.len() {
        let ip = vstd::slice::slice_subrange(body, 0, dot);
        let fp = vstd::slice::slice_subrange(body, dot + 1, body.len());
        (ip, fp)
    } else {
        let ip = vstd::slice::slice_subrange(body, 0, body.len());
        let fp = vstd::slice::slice_subrange(body, body.len(), body.len());
        (ip, fp)
    };
    proof {
        if dot < body@.len() {
            assert(ip@ =~= body@.take(dot as int));
            assert(fp@ =~= body@.skip(dot + 1));
        } else {
            assert(ip@ =~= body@);
            assert(fp@ =~= Seq::<u8>::empty());
        }
    }
    if !check_digits(ip) || !check_digits(fp) {
        return None;
    }
    if ip.len() + fp.len() == 0 {
        return None;
    }
    if ip.len() > 15 {
        return None;
    }
    let iv = digits_value(ip);
    let fv = frac_value(fp);
    let magnitude = iv * 1000 + fv;
    proof {
        lemma_digits_value_bound(ip@);
    }
    if neg {
        Some(-(magnitude as i64))
    } else {
        Some(magnitude as i64)
    }
}

/// Parse of a zero-based label field: up to three digits, value at most
/// 254, so the one-based label fits its type.
pub open spec fn spec_parse_label(f: Seq<u8>) -> Option<int> {
    if spec_all_digits(f) && 1 <= f.len() <= 3 && spec_digits_value(f) <= 254 {
        Some(spec_digits_value(f))
    } else {
        None
    }
}

/// Parse a zero-based label field.
pub fn parse_label(f: &[u8]) -> (r: Option<u8>)
    ensures
        r is Some <==> spec_parse_label(f@) is Some,
        r is Some ==> r.unwrap() == spec_parse_label(f@).unwrap(),
{
    if !check_digits(f) {
        return None;
    }
    if f.len() < 1 || f.len() > 3 {
        return None;
    }
    proof {
        reveal_with_fuel(spec_pow10, 5);
    }
    let v = digits_value(f);
    if v > 254 {
        return None;
    }
    Some(v as u8)
}

/// Parse of one full line: fourteen comma-separated fields, the first
/// twelve as milli-unit channels, the thirteenth a zero-based label turned
/// one-based, the fourteenth the subject token kept verbatim.
pub open spec fn spec_parse_line(s: Seq<u8>) -> Option<(Seq<int>, int, Seq<u8>)> {
    let fs = spec_split(s, COMMA);
    if fs.len() == 14 && (forall|i: int| 0 <= i < 12 ==> spec_parse_milli(#[trigger] fs[i]) is Some)
        && spec_parse_label(fs[12]) is Some {
        Some(
            (
                Seq::new(12, |i: int| spec_parse_milli(fs[i]).unwrap()),
                spec_parse_label(fs[12]).unwrap() + 1,
                fs[13],
            ),
        )
    } else {
        None
    }
}

proof fn lemma_parse_line_channel_none(s: Seq<u8>, i: int)
    requires
        0 <= i < 12,
        spec_parse_milli(spec_split(s, COMMA)[i]) is None,
    ensures
        spec_parse_line(s) is None,
{
}

proof fn lemma_parse_line_label_none(s: Seq<u8>)
    requires
        spec_parse_label(spec_split(s, COMMA)[12]) is None,
    ensures
        spec_parse_line(s) is None,
{
}

/// Parse one line into a motion record, or nothing when the line is
/// malformed: fewer or more than fourteen fields, or a channel or label
/// field outside the grammar, drop the line.
pub fn parse_motion_line(line: &[u8]) -> (r: Option<MotionRecord>)
    ensures
        r is Some <==> spec_parse_line(line@) is Some,
        r is Some ==> ({
            let (channels, activity, subject) = spec_parse_line(line@).unwrap();
            let rec = r.unwrap();
            &&& rec.wf()
            &&& rec.channels@.map_values(|c: i64| c as int) =~= channels
            &&& rec.activity == activity
            &&& rec.subject@ == subject
        }),
{
    let fields = split_on(line, COMMA);
    let ghost fs = spec_split(line@, COMMA);
    proof {
        assert(fields@.map_values(|v: Vec<u8>| v@).len() == fields@.len());
    }
    if fields.len() != 14 {
        return None;
    }
    let mut channels: Vec<i64> = Vec::new();
    let mut i: usize = 0;
    while i < 12
        invariant
            fs == spec_split(line@, COMMA),
            0 <= i <= 12,
            fields@.len() == 14,
            fields@.map_values(|v: Vec<u8>| v@) =~~= fs,
            fs.len() == 14,
            channels@.len() == i,
            forall|j: int| 0 <= j < i ==> spec_parse_milli(#[trigger] fs[j]) is Some,
            forall|j: int|
                0 <= j < i ==> #[trigger] channels@[j] == spec_parse_milli(fs[j]).unwrap(),
            forall|j: int|
                0 <= j < i ==> -CHANNEL_LIMIT <= #[trigger] channels@[j] <= CHANNEL_LIMIT,
        decreases 12 - i,
    {
        proof {
            assert(fields@.map_values(|v: Vec<u8>| v@)[i as int] == fields@[i as int]@);
        }
        match parse_milli(fields[i].as_slice()) {
            Some(v) => {
                channels.push(v);
            },
            None => {
                proof {
                    assert(spec_parse_milli(fs[i as int]) is None);
                    lemma_parse_line_channel_none(line@, i as int);
                }
                return None;
            },
        }
        i = i + 1;
    }
    proof {
        assert(fields@.map_values(|v: Vec<u8>| v@)[12] == fields@[12]@);
        assert(fields@.map_values(|v: Vec<u8>| v@)[13] == fields@[13]@);
    }
    let label = match parse_label(fields[12].as_slice()) {
        Some(l) => l,
        None => {
            proof {
                lemma_parse_line_label_none(line@);
            }
            return None;
        },
    };
    let subject = vstd::slice::slice_to_vec(fields[13].as_slice());
    let rec = MotionRecord { channels, activity: label + 1, subject };
    proof {
        let (spec_channels, spec_activity, spec_subject) = spec_parse_line(line@).unwrap();
        assert(rec.channels@.map_values(|c: i64| c as int) =~= spec_channels);
    }
    Some(rec)
}

/// Strip one trailing carriage return, so both bare and CRLF line endings
/// parse alike.
pub open spec fn spec_strip_cr(line: Seq<u8>) -> Seq<u8> {
    if line.len() > 0 && line.last() == CARRIAGE_RETURN {
        line.drop_last()
    } else {
        line
    }
}

/// Records of a sequence of lines: each line stripped of a trailing
/// carriage return, parsed, and kept only when it parses.
pub open spec fn spec_csv_records(lines: Seq<Seq<u8>>) -> Seq<(Seq<int>, int, Seq<u8>)>
    decreases lines.len(),
{
    if lines.len() == 0 {
        Seq::empty()
    } else {
        let head = spec_parse_line(spec_strip_cr(lines[0]));
        let rest = spec_csv_records(lines.skip(1));
        if head is Some {
            seq![head.unwrap()] + rest
        } else {
            rest
        }
    }
}

/// Parse a whole comma-separated recording: split into lines, strip
/// carriage returns, parse each line, and keep the records of the lines
/// that parse, in order. Malformed lines are dropped, never an error.
pub fn parse_motion_csv(data: &[u8]) -> (r: Vec<MotionRecord>)
    ensures
        r@.len() == spec_csv_records(spec_split(data@, NEWLINE)).len(),
        forall|i: int|
            0 <= i < r@.len() ==> {
                let (channels, activity, subject) = spec_csv_records(
                    spec_split(data@, NEWLINE),
                )[i];
                &&& (#[trigger] r@[i]).wf()
                &&& r@[i].channels@.map_values(|c: i64| c as int) =~= channels
                &&& r@[i].activity == activity
                &&& r@[i].subject@ == subject
            },
{
    let lines = split_on(data, NEWLINE);
    let ghost ls = spec_split(data@, NEWLINE);
    let n = lines.len();
    let mut records: Vec<MotionRecord> = Vec::new();
    let mut i: usize = 0;
    proof {
        assert(ls.skip(0) =~~= ls);
    }
    while i < n
        invariant
            ls == spec_split(data@, NEWLINE),
            0 <= i <= n,
            n == lines@.len(),
            lines@.map_values(|v: Vec<u8>| v@) =~~= ls,
            spec_csv_records(ls) =~= records@.map_values(
                |rec: MotionRecord|
                    (
                        rec.channels@.map_values(|c: i64| c as int),
                        rec.activity as int,
                        rec.subject@,
                    ),
            ) + spec_csv_records(ls.skip(i as int)),
            forall|j: int| 0 <= j < records@.len() ==> (#[trigger] records@[j]).wf(),
        decreases n - i,
    {
        proof {
            assert(lines@.map_values(|v: Vec<u8>| v@)[i as int] == lines@[i as int]@);
            assert(ls.skip(i as int)[0] == ls[i as int]);
            assert(ls.skip(i as int).skip(1) =~~= ls.skip(i + 1));
        }
        let line = lines[i].as_slice();
        let stripped = if line.len() > 0 && line[line.len() - 1] == CARRIAGE_RETURN {
            vstd::slice::slice_subrange(line, 0, line.len() - 1)
        } else {
            vstd::slice::slice_subrange(line, 0, line.len())
        };
        proof {
            assert(stripped@ =~= spec_strip_cr(ls[i as int]));
        }
        match parse_motion_line(stripped) {
            Some(rec) => {
                records.push(rec);
                proof {
                    assert(records@.map_values(
                        |rec: MotionRecord|
                            (
                                rec.channels@.map_values(|c: i64| c as int),
                                rec.activity as int,
                                rec.subject@,
                            ),
                    ) =~= records@.drop_last().map_values(
                        |rec: MotionRecord|
                            (
                                rec.channels@.map_values(|c: i64| c as int),
                                rec.activity as int,
                                rec.subject@,
                            ),
                    ).push(
                        (
                            records@.last().channels@.map_values(|c: i64| c as int),
                            records@.last().activity as int,
                            records@.last().subject@,
                        ),
                    ));
                }
            },
            None => {
            },
        }
        i = i + 1;
    }
    proof {
        assert(ls.skip(n as int) =~~= Seq::<Seq<u8>>::empty());
    }
    records
}

} // verus!
