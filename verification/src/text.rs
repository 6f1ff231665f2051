//! Decimal rendering of integers as strings, for the error texts the
//! bridge sends to operators.

use vstd::prelude::*;

verus! {

/// The character for one decimal digit.
pub open spec fn dec_digit_char(d: int) -> char
    recommends
        0 <= d < 10,
{
    if d == 0 {
        '0'
    } else if d == 1 {
        '1'
    } else if d == 2 {
        '2'
    } else if d == 3 {
        '3'
    } else if d == 4 {
        '4'
    } else if d == 5 {
        '5'
    } else if d == 6 {
        '6'
    } else if d == 7 {
        '7'
    } else if d == 8 {
        '8'
    } else {
        '9'
    }
}

/// The decimal digits of a non-negative number, most significant first.
pub open spec fn dec_nat_seq(n: int) -> Seq<char>
    recommends
        n >= 0,
    decreases n,
{
    if n < 10 {
        seq![dec_digit_char(n)]
    } else {
        dec_nat_seq(n / 10).push(dec_digit_char(n % 10))
    }
}

/// The decimal rendering of a signed number: a minus sign for a negative
/// one, then the digits of its magnitude.
pub open spec fn dec_int_seq(n: int) -> Seq<char> {
    if n < 0 {
        seq!['-'] + dec_nat_seq(-n)
    } else {
        dec_nat_seq(n)
    }
}

/// Relies on `String::push_str`: appends the slice's characters, in order,
/// to the string.
#[verifier::external_body]
pub fn append_str(s: &mut String, t: &str)
    ensures
        final(s)@ == old(s)@ + t@,
{
    s.push_str(t);
}

/// The one-character string for a decimal digit.
fn digit_str(d: u64) -> (s: &'static str)
    requires
        d < 10,
    ensures
        s@ == seq![dec_digit_char(d as int)],
{
    proof {
        reveal_strlit("0");
        reveal_strlit("1");
        reveal_strlit("2");
        reveal_strlit("3");
        reveal_strlit("4");
        reveal_strlit("5");
        reveal_strlit("6");
        reveal_strlit("7");
        reveal_strlit("8");
        reveal_strlit("9");
    }
    let s: &'static str = if d == 0 {
        "0"
    } else if d == 1 {
        "1"
    } else if d == 2 {
        "2"
    } else if d == 3 {
        "3"
    } else if d == 4 {
        "4"
    } else if d == 5 {
        "5"
    } else if d == 6 {
        "6"
    } else if d == 7 {
        "7"
    } else if d == 8 {
        "8"
    } else {
        "9"
    };
    assert(s@ =~= seq![dec_digit_char(d as int)]);
    s
}

/// The decimal rendering of an unsigned number.
pub fn u64_to_dec(n: u64) -> (s: String)
    ensures
        s@ == dec_nat_seq(n as int),
    decreases n,
{
    if n < 10 {
        digit_str(n).to_owned()
    } else {
        let mut s = u64_to_dec(n / 10);
        append_str(&mut s, digit_str(n % 10));
        assert(s@ =~= dec_nat_seq(n as int));
        s
    }
}

/// The decimal rendering of a signed number.
pub fn i32_to_dec(n: i32) -> (s: String)
    ensures
        s@ == dec_int_seq(n as int),
{
    if n < 0 {
        let mag: u64 = (-(n as i64)) as u64;
        proof {
            reveal_strlit("-");
        }
        let mut s = "-".to_owned();
        let digits = u64_to_dec(mag);
        append_str(&mut s, digits.as_str());
        assert(s@ =~= dec_int_seq(n as int));
        s
    } else {
        u64_to_dec(n as u64)
    }
}

} // verus!
