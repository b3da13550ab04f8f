//! Verified decimal rendering of integers, used to build response bodies and
//! log lines without a formatting macro.

use vstd::prelude::*;

verus! {

/// The character for one decimal digit.
pub open spec fn spec_digit_char(d: int) -> char {
    if d == 0 {
        '0'
    } else if d == 1 {
        '1'
    } else if d == 2 {
        '2'
    } else if d == 3 {
        '3'
    } else if d == 4 {
        '4'
    } else if d == 5 {
        '5'
    } else if d == 6 {
        '6'
    } else if d == 7 {
        '7'
    } else if d == 8 {
        '8'
    } else {
        '9'
    }
}

/// The usual decimal notation of a natural number: no sign, no leading
/// zeros (except for the single digit of zero itself).
pub open spec fn spec_dec_nat(n: nat) -> Seq<char>
    decreases n,
{
    if n < 10 {
        seq![spec_digit_char(n as int)]
    } else {
        spec_dec_nat(n / 10) + seq![spec_digit_char((n % 10) as int)]
    }
}

/// The usual decimal notation of an integer: a leading '-' for negative
/// values, then the digits of the magnitude.
pub open spec fn spec_dec_int(n: int) -> Seq<char> {
    if n < 0 {
        seq!['-'] + spec_dec_nat((-n) as nat)
    } else {
        spec_dec_nat(n as nat)
    }
}

/// The one-character string slice for a decimal digit.
fn digit_str(d: u64) -> (s: &'static str)
    requires
        d < 10,
    ensures
        s@ == seq![spec_digit_char(d as int)],
{
    proof {
        reveal_strlit("0");
        reveal_strlit("1");
        reveal_strlit("2");
        reveal_strlit("3");
        reveal_strlit("4");
        reveal_strlit("5");
        reveal_strlit("6");
        reveal_strlit("7");
        reveal_strlit("8");
        reveal_strlit("9");
    }
    let s = match d {
        0 => "0",
        1 => "1",
        2 => "2",
        3 => "3",
        4 => "4",
        5 => "5",
        6 => "6",
        7 => "7",
        8 => "8",
        _ => "9",
    };
    proof {
        assert(s@ =~= seq![spec_digit_char(d as int)]);
    }
    s
}

/// Appends the decimal notation of `n` to `s`.
pub fn push_dec_u64(s: &mut String, n: u64)
    ensures
        final(s)@ == old(s)@ + spec_dec_nat(n as nat),
    decreases n,
{
    if n < 10 {
        s.append(digit_str(n));
    } else {
        push_dec_u64(s, n / 10);
        s.append(digit_str(n % 10));
        proof {
            assert(s@ =~= old(s)@ + spec_dec_nat(n as nat));
        }
    }
}

/// Appends the decimal notation of `n` to `s`, with a leading '-' when `n`
/// is negative.
pub fn push_dec_i32(s: &mut String, n: i32)
    ensures
        final(s)@ == old(s)@ + spec_dec_int(n as int),
{
    if n < 0 {
        proof {
            reveal_strlit("-");
        }
        s.append("-");
        let wide: i64 = n as i64;
        let mag: u64 = (-wide) as u64;
        push_dec_u64(s, mag);
        proof {
            assert(s@ =~= old(s)@ + spec_dec_int(n as int));
        }
    } else {
        let mag: u64 = n as u64;
        push_dec_u64(s, mag);
    }
}

/// The decimal notation of `n` as a fresh string.
pub fn dec_u64(n: u64) -> (s: String)
    ensures
        s@ == spec_dec_nat(n as nat),
{
    let mut s = String::new();
    push_dec_u64(&mut s, n);
    proof {
        assert(s@ =~= spec_dec_nat(n as nat));
    }
    s
}

/// The decimal notation of `n` as a fresh string.
pub fn dec_i32(n: i32) -> (s: String)
    ensures
        s@ == spec_dec_int(n as int),
{
    let mut s = String::new();
    push_dec_i32(&mut s, n);
    proof {
        assert(s@ =~= spec_dec_int(n as int));
    }
    s
}

/// Exact equality of two string slices, specified over their characters.
pub fn str_eq(a: &str, b: &str) -> (r: bool)
    ensures
        r == (a@ == b@),
{
    let sa = a.to_owned();
    let sb = b.to_owned();
    sa == sb
}

} // verus!
