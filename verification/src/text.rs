//! Decimal rendering of the integers that appear in record lines.

use vstd::prelude::*;

verus! {

/// The character for one decimal digit value.
pub open spec fn dec_digit(d: int) -> char {
    if d == 0 {
        '0'
    } else if d == 1 {
        '1'
    } else if d == 2 {
        '2'
    } else if d == 3 {
        '3'
    } else if d == 4 {
        '4'
    } else if d == 5 {
        '5'
    } else if d == 6 {
        '6'
    } else if d == 7 {
        '7'
    } else if d == 8 {
        '8'
    } else {
        '9'
    }
}

/// The usual decimal rendering of a non-negative integer: no leading
/// zeroes except for the number 0 itself.
pub open spec fn dec_of(n: nat) -> Seq<char>
    decreases n,
{
    if n < 10 {
        seq![dec_digit(n as int)]
    } else {
        dec_of(n / 10).push(dec_digit((n % 10) as int))
    }
}

/// Decimal rendering of a possibly negative integer, with a leading minus.
pub open spec fn dec_int(v: int) -> Seq<char> {
    if v < 0 {
        seq!['-'] + dec_of((-v) as nat)
    } else {
        dec_of(v as nat)
    }
}

/// Every character of `dec_of(n)` is a decimal digit.
pub proof fn lemma_dec_of_digits(n: nat)
    ensures
        dec_of(n).len() >= 1,
        forall|i: int|
            0 <= i < dec_of(n).len() ==> '0' <= #[trigger] dec_of(n)[i] && dec_of(n)[i] <= '9',
    decreases n,
{
    if n >= 10 {
        lemma_dec_of_digits(n / 10);
    }
}

/// Every character of `dec_int(v)` is a digit or a leading minus; none is
/// a newline, a quote or a comma.
pub proof fn lemma_dec_int_plain(v: int)
    ensures
        dec_int(v).len() >= 1,
        forall|i: int|
            0 <= i < dec_int(v).len() ==> (('0' <= #[trigger] dec_int(v)[i] && dec_int(v)[i] <= '9')
                || dec_int(v)[i] == '-'),
{
    if v < 0 {
        lemma_dec_of_digits((-v) as nat);
    } else {
        lemma_dec_of_digits(v as nat);
    }
}

/// Distinct digit values render as distinct characters.
pub proof fn lemma_dec_digit_injective(d1: int, d2: int)
    requires
        0 <= d1 < 10,
        0 <= d2 < 10,
        dec_digit(d1) == dec_digit(d2),
    ensures
        d1 == d2,
{
}

/// Law: decimal rendering is injective — two different numbers never
/// produce the same text, so a column of renderings has no repeats.
pub proof fn lemma_dec_of_injective(a: nat, b: nat)
    requires
        dec_of(a) == dec_of(b),
    ensures
        a == b,
    decreases a,
{
    if a < 10 && b < 10 {
        assert(dec_of(a)[0] == dec_digit(a as int));
        assert(dec_of(b)[0] == dec_digit(b as int));
        lemma_dec_digit_injective(a as int, b as int);
    } else if a < 10 && b >= 10 {
        lemma_dec_of_digits(b / 10);
        assert(dec_of(b).len() >= 2);
    } else if a >= 10 && b < 10 {
        lemma_dec_of_digits(a / 10);
        assert(dec_of(a).len() >= 2);
    } else {
        lemma_dec_of_digits(a / 10);
        lemma_dec_of_digits(b / 10);
        assert(dec_of(a).last() == dec_digit((a % 10) as int));
        assert(dec_of(b).last() == dec_digit((b % 10) as int));
        lemma_dec_digit_injective((a % 10) as int, (b % 10) as int);
        assert(dec_of(a).drop_last() =~= dec_of(a / 10));
        assert(dec_of(b).drop_last() =~= dec_of(b / 10));
        lemma_dec_of_injective(a / 10, b / 10);
    }
}

/// The one-character string for a decimal digit value.
fn digit_str(d: u64) -> (s: &'static str)
    requires
        d < 10,
    ensures
        s@ =~= seq![dec_digit(d as int)],
{
    proof {
        reveal_strlit("0");
        reveal_strlit("1");
        reveal_strlit("2");
        reveal_strlit("3");
        reveal_strlit("4");
        reveal_strlit("5");
        reveal_strlit("6");
        reveal_strlit("7");
        reveal_strlit("8");
        reveal_strlit("9");
    }
    if d == 0 {
        "0"
    } else if d == 1 {
        "1"
    } else if d == 2 {
        "2"
    } else if d == 3 {
        "3"
    } else if d == 4 {
        "4"
    } else if d == 5 {
        "5"
    } else if d == 6 {
        "6"
    } else if d == 7 {
        "7"
    } else if d == 8 {
        "8"
    } else {
        "9"
    }
}

/// Renders `n` in decimal.
pub fn u64_string(n: u64) -> (s: String)
    ensures
        s@ =~= dec_of(n as nat),
    decreases n,
{
    if n < 10 {
        digit_str(n).to_owned()
    } else {
        let mut s = u64_string(n / 10);
        s.append(digit_str(n % 10));
        proof {
            assert(s@ =~= dec_of((n / 10) as nat).push(dec_digit((n % 10) as int)));
        }
        s
    }
}

/// Renders `v` in decimal, with a leading minus when negative.
pub fn i64_string(v: i64) -> (s: String)
    ensures
        s@ =~= dec_int(v as int),
{
    if v >= 0 {
        u64_string(v as u64)
    } else {
        // The magnitude of i64::MIN does not fit in i64, so it cannot be
        // negated in that type.
        let mag: u64 = if v == i64::MIN {
            9223372036854775808u64
        } else {
            (-v) as u64
        };
        let mut s = minus_str().to_owned();
        s.append(u64_string(mag).as_str());
        s
    }
}

/// The one-character minus-sign string.
fn minus_str() -> (s: &'static str)
    ensures
        s@ =~= seq!['-'],
{
    proof {
        reveal_strlit("-");
    }
    "-"
}

} // verus!
