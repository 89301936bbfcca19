//! Decimal rendering of exit codes.
//!
//! The relay reports a worker exit as text, so the exit code must be
//! rendered as decimal digits. The spec functions here define that
//! rendering mathematically; the executable functions produce it and are
//! proved against them.

use vstd::prelude::*;

verus! {

/// The character for one decimal digit value.
pub open spec fn digit_char(d: nat) -> char
    recommends
        d < 10,
{
    (48 + d) as char
}

/// Decimal digits of `n`, most significant first.
pub open spec fn dec_digits(n: nat) -> Seq<char>
    decreases n,
{
    if n < 10 {
        seq![digit_char(n)]
    } else {
        dec_digits(n / 10).push(digit_char(n % 10))
    }
}

/// Decimal rendering of a signed value: a minus sign, if negative, then
/// the digits of the magnitude.
pub open spec fn dec_signed(c: int) -> Seq<char> {
    if c < 0 {
        seq!['-'] + dec_digits((-c) as nat)
    } else {
        dec_digits(c as nat)
    }
}

/// The one-character string for a decimal digit value.
fn digit_str(d: u8) -> (s: &'static str)
    requires
        d < 10,
    ensures
        s@ == seq![digit_char(d as nat)],
{
    let s: &'static str = match d {
        0 => "0",
        1 => "1",
        2 => "2",
        3 => "3",
        4 => "4",
        5 => "5",
        6 => "6",
        7 => "7",
        8 => "8",
        _ => "9",
    };
    proof {
        reveal_strlit("0");
        reveal_strlit("1");
        reveal_strlit("2");
        reveal_strlit("3");
        reveal_strlit("4");
        reveal_strlit("5");
        reveal_strlit("6");
        reveal_strlit("7");
        reveal_strlit("8");
        reveal_strlit("9");
        assert(s@ =~= seq![digit_char(d as nat)]);
    }
    s
}

/// Render an unsigned value in decimal.
pub fn format_u32(n: u32) -> (s: String)
    ensures
        s@ == dec_digits(n as nat),
    decreases n,
{
    if n < 10 {
        digit_str(n as u8).to_owned()
    } else {
        let mut s = format_u32(n / 10);
        s.append(digit_str((n % 10) as u8));
        proof {
            assert(s@ =~= dec_digits(n as nat));
        }
        s
    }
}

/// Render a signed value in decimal.
pub fn format_i32(c: i32) -> (s: String)
    ensures
        s@ == dec_signed(c as int),
{
    if c < 0 {
        let magnitude: u32 = (-(c as i64)) as u32;
        let mut s = String::from_str("-");
        let digits = format_u32(magnitude);
        s.append(digits.as_str());
        proof {
            reveal_strlit("-");
            assert(s@ =~= dec_signed(c as int));
        }
        s
    } else {
        format_u32(c as u32)
    }
}

} // verus!
