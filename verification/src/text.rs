//! Verified text building blocks: decimal rendering of fixed-point values
//! and substring search.

use vstd::prelude::*;

verus! {

/// The ASCII character of one decimal digit.
pub open spec fn spec_digit_char(d: int) -> char {
    if d == 0 {
        '0'
    } else if d == 1 {
        '1'
    } else if d == 2 {
        '2'
    } else if d == 3 {
        '3'
    } else if d == 4 {
        '4'
    } else if d == 5 {
        '5'
    } else if d == 6 {
        '6'
    } else if d == 7 {
        '7'
    } else if d == 8 {
        '8'
    } else {
        '9'
    }
}

/// Decimal digits of a non-negative number, most significant first.
pub open spec fn spec_digits_of(n: nat) -> Seq<char>
    decreases n,
{
    if n < 10 {
        seq![spec_digit_char(n as int)]
    } else {
        spec_digits_of(n / 10).push(spec_digit_char((n % 10) as int))
    }
}

/// One decimal digit as a string slice.
fn digit_str(d: u64) -> (r: &'static str)
    requires
        d <= 9,
    ensures
        r@ =~= seq![spec_digit_char(d as int)],
{
    proof {
        reveal_strlit("0");
        reveal_strlit("1");
        reveal_strlit("2");
        reveal_strlit("3");
        reveal_strlit("4");
        reveal_strlit("5");
        reveal_strlit("6");
        reveal_strlit("7");
        reveal_strlit("8");
        reveal_strlit("9");
    }
    match d {
        0 => "0",
        1 => "1",
        2 => "2",
        3 => "3",
        4 => "4",
        5 => "5",
        6 => "6",
        7 => "7",
        8 => "8",
        _ => "9",
    }
}

/// Append the decimal digits of `n` to `out`.
pub fn append_u64(out: &mut String, n: u64)
    ensures
        final(out)@ == old(out)@ + spec_digits_of(n as nat),
    decreases n,
{
    let ghost pre = out@;
    if n >= 10 {
        append_u64(out, n / 10);
        out.append(digit_str(n % 10));
        proof {
            assert(out@ =~= pre + spec_digits_of(n as nat));
        }
    } else {
        out.append(digit_str(n));
        proof {
            assert(out@ =~= pre + spec_digits_of(n as nat));
        }
    }
}

/// Text of a milli-unit value rendered with no decimals: the magnitude
/// rounded to whole units, half away from zero, behind a minus sign for a
/// negative value.
pub open spec fn spec_milli_0dp(v: int) -> Seq<char> {
    if v < 0 {
        seq!['-'] + spec_digits_of((((-v) + 500) / 1000) as nat)
    } else {
        spec_digits_of(((v + 500) / 1000) as nat)
    }
}

/// Units, a point and two fraction digits of a non-negative centi-unit
/// magnitude.
pub open spec fn spec_centi_body(a: int) -> Seq<char> {
    spec_digits_of((a / 100) as nat) + seq!['.'] + seq![
        spec_digit_char(a / 10 % 10),
        spec_digit_char(a % 10),
    ]
}

/// Text of a milli-unit value rendered with two decimals: the magnitude
/// rounded to centi-units, half away from zero, behind a minus sign for a
/// negative value.
pub open spec fn spec_milli_2dp(v: int) -> Seq<char> {
    if v < 0 {
        seq!['-'] + spec_centi_body(((-v) + 5) / 10)
    } else {
        spec_centi_body((v + 5) / 10)
    }
}

/// Bound on the milli-unit values the renderers accept.
pub const RENDER_LIMIT: i64 = 1_000_000_000_000;

/// Append a milli-unit value rounded to whole units.
pub fn append_milli_0dp(out: &mut String, v: i64)
    requires
        -RENDER_LIMIT <= v <= RENDER_LIMIT,
    ensures
        final(out)@ == old(out)@ + spec_milli_0dp(v as int),
{
    let ghost pre = out@;
    if v < 0 {
        proof {
            reveal_strlit("-");
        }
        out.append("-");
        let r = ((-v) as u64 + 500) / 1000;
        append_u64(out, r);
        proof {
            assert(out@ =~= pre + spec_milli_0dp(v as int));
        }
    } else {
        let r = (v as u64 + 500) / 1000;
        append_u64(out, r);
        proof {
            assert(out@ =~= pre + spec_milli_0dp(v as int));
        }
    }
}

/// Append a milli-unit value rounded to two decimals.
pub fn append_milli_2dp(out: &mut String, v: i64)
    requires
        -RENDER_LIMIT <= v <= RENDER_LIMIT,
    ensures
        final(out)@ == old(out)@ + spec_milli_2dp(v as int),
{
    let ghost pre = out@;
    proof {
        reveal_strlit("-");
        reveal_strlit(".");
    }
    let a: u64 = if v < 0 {
        out.append("-");
        ((-v) as u64 + 5) / 10
    } else {
        (v as u64 + 5) / 10
    };
    append_u64(out, a / 100);
    out.append(".");
    out.append(digit_str(a / 10 % 10));
    out.append(digit_str(a % 10));
    proof {
        assert(out@ =~= pre + spec_milli_2dp(v as int));
    }
}

/// Whether `needle` occurs as a contiguous run of characters in `hay`.
pub open spec fn spec_contains(hay: Seq<char>, needle: Seq<char>) -> bool {
    exists|i: int|
        0 <= i <= hay.len() - needle.len() && #[trigger] hay.subrange(i, i + needle.len() as int)
            == needle
}

/// Substring search by characters: whether `needle` occurs in `hay`.
pub fn str_contains(hay: &str, needle: &str) -> (r: bool)
    ensures
        r == spec_contains(hay@, needle@),
{
    let h = hay.unicode_len();
    let n = needle.unicode_len();
    if n > h {
        proof {
            assert(!spec_contains(hay@, needle@));
        }
        return false;
    }
    let mut i: usize = 0;
    while i <= h - n
        invariant
            0 <= i <= h - n + 1,
            n <= h,
            h == hay@.len(),
            n == needle@.len(),
            forall|k: int|
                0 <= k < i ==> #[trigger] hay@.subrange(k, k + needle@.len() as int) != needle@,
        decreases h - n - i + 1,
    {
        let mut j: usize = 0;
        let mut matched = true;
        while j < n && matched
            invariant
                0 <= j <= n,
                0 <= i <= h - n,
                h == hay@.len(),
                n == needle@.len(),
                matched ==> forall|k: int| 0 <= k < j ==> hay@[i + k] == needle@[k],
                !matched ==> exists|k: int| 0 <= k < n && hay@[i + k] != needle@[k],
            decreases n - j + (if matched { 1int } else { 0int }),
        {
            if hay.get_char(i + j) != needle.get_char(j) {
                matched = false;
            } else {
                j = j + 1;
            }
        }
        if matched {
            proof {
                assert(j >= n);
                assert forall|k: int|
                    0 <= k < n implies hay@.subrange(i as int, i + needle@.len() as int)[k]
                    == needle@[k] by {
                    assert(hay@[i + k] == needle@[k]);
                }
                assert(hay@.subrange(i as int, i + needle@.len() as int) =~= needle@);
            }
            return true;
        }
        proof {
            assert(hay@.subrange(i as int, i + needle@.len() as int) != needle@) by {
                let k = choose|k: int| 0 <= k < needle@.len() && hay@[i + k] != needle@[k];
                assert(hay@.subrange(i as int, i + needle@.len() as int)[k] == hay@[i + k]);
            }
        }
        i = i + 1;
    }
    proof {
        assert(!spec_contains(hay@, needle@));
    }
    false
}

} // verus!
