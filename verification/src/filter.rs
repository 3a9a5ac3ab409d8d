//! Status-code filtering: a three-character pattern over digits and the
//! per-digit wildcard `'x'`, with `"xxx"` matching every code.

use vstd::prelude::*;
use vstd::string::StrSliceExecFns;
use crate::numfmt::dec_seq;
use crate::numfmt::digit_char;
use crate::numfmt::lemma_dec_seq_three_digits;

verus! {

/// One pattern position accepts a digit when it is the wildcard or that
/// digit's character.
pub open spec fn digit_accepted(pat: char, d: int) -> bool {
    pat == 'x' || pat == digit_char(d)
}

/// Whether `code` passes the three-character `filter`. The wildcard
/// pattern `"xxx"` passes every code; any other pattern is compared
/// digit by digit against the three-digit decimal form of `code`, so a
/// code outside 100–999 passes only the wildcard pattern.
pub open spec fn filter_matches(code: u16, filter: Seq<char>) -> bool {
    filter == "xxx"@ || (100 <= code <= 999 && filter.len() == 3
        && digit_accepted(filter[0], code as int / 100)
        && digit_accepted(filter[1], (code as int / 10) % 10)
        && digit_accepted(filter[2], code as int % 10))
}

/// A non-wildcard pattern passes a three-digit code exactly when each
/// pattern character is the per-digit wildcard or the corresponding
/// character of the code's rendered decimal form.
pub proof fn lemma_filter_matches_rendered_digits(code: u16, filter: Seq<char>)
    requires
        100 <= code <= 999,
        filter.len() == 3,
    ensures
        filter_matches(code, filter) <==> (filter == "xxx"@ || (forall|i: int|
            0 <= i < 3 ==> filter[i] == 'x' || filter[i] == dec_seq(code as nat)[i])),
{
    lemma_dec_seq_three_digits(code as nat);
    let d = dec_seq(code as nat);
    assert(digit_accepted(filter[0], code as int / 100) == (filter[0] == 'x' || filter[0] == d[0]));
    assert(digit_accepted(filter[1], (code as int / 10) % 10) == (filter[1] == 'x' || filter[1]
        == d[1]));
    assert(digit_accepted(filter[2], code as int % 10) == (filter[2] == 'x' || filter[2] == d[2]));
}

/// The wildcard pattern passes every status code.
pub proof fn lemma_wildcard_matches_all(code: u16)
    ensures
        filter_matches(code, "xxx"@),
{
}

/// Whether a three-character pattern is the wildcard pattern.
pub(crate) fn is_wildcard(filter: &str) -> (r: bool)
    requires
        filter@.len() == 3,
    ensures
        r == (filter@ == "xxx"@),
{
    proof {
        reveal_strlit("xxx");
    }
    let r = filter.get_char(0) == 'x' && filter.get_char(1) == 'x' && filter.get_char(2) == 'x';
    proof {
        if r {
            assert(filter@ =~= "xxx"@);
        }
    }
    r
}

/// Whether `code` passes the three-character `filter`. The caller
/// validates the pattern's length once at startup; codes are expected to
/// be logically three-digit, and anything outside 100–999 is left out
/// here (such a code can only pass the wildcard pattern, which is
/// decided without looking at its digits).
pub fn filter_status_code(code: u16, filter: &str) -> (r: bool)
    requires
        filter@.len() == 3,
        100 <= code <= 999 || filter@ == "xxx"@,
    ensures
        r == filter_matches(code, filter@),
{
    if is_wildcard(filter) {
        return true;
    }
    let d0: u16 = code / 100;
    let d1: u16 = (code / 10) % 10;
    let d2: u16 = code % 10;
    let c0 = filter.get_char(0);
    let c1 = filter.get_char(1);
    let c2 = filter.get_char(2);
    (c0 == 'x' || c0 == digit_char_of(d0)) && (c1 == 'x' || c1 == digit_char_of(d1))
        && (c2 == 'x' || c2 == digit_char_of(d2))
}

/// The character for one decimal digit, as executable code.
fn digit_char_of(d: u16) -> (c: char)
    requires
        d < 10,
    ensures
        c == digit_char(d as int),
{
    match d {
        0 => '0',
        1 => '1',
        2 => '2',
        3 => '3',
        4 => '4',
        5 => '5',
        6 => '6',
        7 => '7',
        8 => '8',
        _ => '9',
    }
}

} // verus!
