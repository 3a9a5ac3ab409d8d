//! Decimal rendering of status codes: a spec-level digit sequence and a
//! verified conversion from `u16` to its decimal string.

use vstd::prelude::*;
use vstd::string::StringExecFns;

verus! {

/// The character for one decimal digit.
pub open spec fn digit_char(d: int) -> char {
    if d == 0 {
        '0'
    } else if d == 1 {
        '1'
    } else if d == 2 {
        '2'
    } else if d == 3 {
        '3'
    } else if d == 4 {
        '4'
    } else if d == 5 {
        '5'
    } else if d == 6 {
        '6'
    } else if d == 7 {
        '7'
    } else if d == 8 {
        '8'
    } else {
        '9'
    }
}

/// Decimal digit sequence of `n`, most significant digit first, with no
/// leading zeros (a single `'0'` for zero itself).
pub open spec fn dec_seq(n: nat) -> Seq<char>
    decreases n,
{
    if n < 10 {
        seq![digit_char(n as int)]
    } else {
        dec_seq(n / 10).push(digit_char((n % 10) as int))
    }
}

/// The one-character string for a decimal digit.
fn digit_str(d: u16) -> (s: &'static str)
    requires
        d < 10,
    ensures
        s@ =~= seq![digit_char(d as int)],
{
    proof {
        reveal_strlit("0");
        reveal_strlit("1");
        reveal_strlit("2");
        reveal_strlit("3");
        reveal_strlit("4");
        reveal_strlit("5");
        reveal_strlit("6");
        reveal_strlit("7");
        reveal_strlit("8");
        reveal_strlit("9");
    }
    match d {
        0 => "0",
        1 => "1",
        2 => "2",
        3 => "3",
        4 => "4",
        5 => "5",
        6 => "6",
        7 => "7",
        8 => "8",
        _ => "9",
    }
}

/// Renders `n` in decimal, most significant digit first.
pub fn u16_to_dec(n: u16) -> (s: String)
    ensures
        s@ == dec_seq(n as nat),
    decreases n,
{
    if n < 10 {
        let mut s = String::new();
        s.append(digit_str(n));
        proof {
            assert(s@ =~= dec_seq(n as nat));
        }
        s
    } else {
        let mut s = u16_to_dec(n / 10);
        s.append(digit_str(n % 10));
        proof {
            assert(s@ =~= dec_seq(n as nat));
        }
        s
    }
}

/// For a three-digit number the digit sequence is exactly the hundreds,
/// tens and units digits.
pub proof fn lemma_dec_seq_three_digits(n: nat)
    requires
        100 <= n <= 999,
    ensures
        dec_seq(n).len() == 3,
        dec_seq(n)[0] == digit_char(n as int / 100),
        dec_seq(n)[1] == digit_char((n as int / 10) % 10),
        dec_seq(n)[2] == digit_char(n as int % 10),
{
    assert(n / 10 / 10 == n / 100) by (nonlinear_arith)
        requires 100 <= n <= 999;
    assert(dec_seq(n / 100) =~= seq![digit_char((n / 100) as int)]);
    assert(dec_seq(n / 10) =~= dec_seq(n / 100).push(digit_char((n / 10 % 10) as int)));
    assert(dec_seq(n) =~= dec_seq(n / 10).push(digit_char((n % 10) as int)));
}

} // verus!
