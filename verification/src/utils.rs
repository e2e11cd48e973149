//! Library-specific utilities, mainly for internal use.

use vstd::prelude::*;
use vstd::string::StringExecFns;

verus! {

/// The character for one decimal digit.
pub open spec fn spec_digit(d: int) -> char {
    if d == 0 {
        '0'
    } else if d == 1 {
        '1'
    } else if d == 2 {
        '2'
    } else if d == 3 {
        '3'
    } else if d == 4 {
        '4'
    } else if d == 5 {
        '5'
    } else if d == 6 {
        '6'
    } else if d == 7 {
        '7'
    } else if d == 8 {
        '8'
    } else {
        '9'
    }
}

/// The usual decimal rendering of an unsigned integer, most significant
/// digit first and without leading zeros.
pub open spec fn spec_dec(v: nat) -> Seq<char>
    decreases v,
{
    if v < 10 {
        seq![spec_digit(v as int)]
    } else {
        spec_dec(v / 10).push(spec_digit((v % 10) as int))
    }
}

fn digit_str(d: u64) -> (r: &'static str)
    requires
        d < 10,
    ensures
        r@ == seq![spec_digit(d as int)],
{
    let r: &'static str = if d == 0 {
        "0"
    } else if d == 1 {
        "1"
    } else if d == 2 {
        "2"
    } else if d == 3 {
        "3"
    } else if d == 4 {
        "4"
    } else if d == 5 {
        "5"
    } else if d == 6 {
        "6"
    } else if d == 7 {
        "7"
    } else if d == 8 {
        "8"
    } else {
        "9"
    };
    proof {
        reveal_strlit("0");
        reveal_strlit("1");
        reveal_strlit("2");
        reveal_strlit("3");
        reveal_strlit("4");
        reveal_strlit("5");
        reveal_strlit("6");
        reveal_strlit("7");
        reveal_strlit("8");
        reveal_strlit("9");
        assert(r@ =~= seq![spec_digit(d as int)]);
    }
    r
}

/// Render an unsigned integer in decimal, as identifiers appear in request
/// URLs and diagnostic messages.
pub fn u64_to_string(v: u64) -> (r: String)
    ensures
        r@ == spec_dec(v as nat),
    decreases v,
{
    if v < 10 {
        digit_str(v).to_owned()
    } else {
        let mut s = u64_to_string(v / 10);
        s.append(digit_str(v % 10));
        proof {
            assert(s@ =~= spec_dec(v as nat));
        }
        s
    }
}

/// Relies on `String::push`: appends the given character to the end of
/// this string, and does nothing else to it.
#[verifier::external_body]
pub(crate) fn push_char(s: &mut String, c: char)
    ensures
        final(s)@ == old(s)@.push(c),
{
    s.push(c)
}

/// Whether a row id still holds the "not yet assigned" sentinel; such an id
/// is left out of a serialized write request.
pub fn is_default(value: &u64) -> (r: bool)
    ensures
        r == (*value == 0),
{
    *value == 0
}

} // verus!
