//! Decimal rendering of the numeric ids that text and image elements carry.

use vstd::prelude::*;

verus! {

/// The character for one decimal digit.
pub open spec fn digit_char(d: int) -> char {
    if d == 0 {
        '0'
    } else if d == 1 {
        '1'
    } else if d == 2 {
        '2'
    } else if d == 3 {
        '3'
    } else if d == 4 {
        '4'
    } else if d == 5 {
        '5'
    } else if d == 6 {
        '6'
    } else if d == 7 {
        '7'
    } else if d == 8 {
        '8'
    } else {
        '9'
    }
}

/// The decimal digits of a non-negative integer, most significant first.
pub open spec fn dec_digits(n: int) -> Seq<char>
    recommends
        n >= 0,
    decreases n,
{
    if n <= 9 {
        seq![digit_char(n)]
    } else {
        dec_digits(n / 10).push(digit_char(n % 10))
    }
}

/// The decimal rendering of an integer: its digits, with a leading minus sign
/// when it is negative.
pub open spec fn dec_str(n: int) -> Seq<char> {
    if n < 0 {
        seq!['-'] + dec_digits(-n)
    } else {
        dec_digits(n)
    }
}

/// The one-character string for a decimal digit.
fn digit_literal(d: u32) -> (s: &'static str)
    requires
        d <= 9,
    ensures
        s@ == seq![digit_char(d as int)],
{
    proof {
        reveal_strlit("0");
        reveal_strlit("1");
        reveal_strlit("2");
        reveal_strlit("3");
        reveal_strlit("4");
        reveal_strlit("5");
        reveal_strlit("6");
        reveal_strlit("7");
        reveal_strlit("8");
        reveal_strlit("9");
    }
    let s = match d {
        0 => "0",
        1 => "1",
        2 => "2",
        3 => "3",
        4 => "4",
        5 => "5",
        6 => "6",
        7 => "7",
        8 => "8",
        _ => "9",
    };
    proof {
        assert(s@ =~= seq![digit_char(d as int)]);
    }
    s
}

/// Renders a non-negative integer in decimal.
pub fn u32_to_string(m: u32) -> (s: String)
    ensures
        s@ == dec_digits(m as int),
    decreases m,
{
    if m <= 9 {
        String::from_str(digit_literal(m))
    } else {
        let mut s = u32_to_string(m / 10);
        s.append(digit_literal(m % 10));
        proof {
            assert(s@ =~= dec_digits(m as int));
        }
        s
    }
}

/// Renders a signed integer in decimal.
pub fn i32_to_string(n: i32) -> (s: String)
    ensures
        s@ == dec_str(n as int),
{
    if n >= 0 {
        u32_to_string(n as u32)
    } else {
        let m: u32 = (-(n as i64)) as u32;
        let mut s = String::from_str("-");
        let digits = u32_to_string(m);
        s.append(digits.as_str());
        proof {
            reveal_strlit("-");
            assert(s@ =~= dec_str(n as int));
        }
        s
    }
}

} // verus!
