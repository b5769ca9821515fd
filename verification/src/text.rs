//! Decimal text for axis labels, over fixed-point tenths.

use vstd::prelude::*;

verus! {

/// The character for one decimal digit value.
pub open spec fn digit_char(d: nat) -> char {
    if d == 0 {
        '0'
    } else if d == 1 {
        '1'
    } else if d == 2 {
        '2'
    } else if d == 3 {
        '3'
    } else if d == 4 {
        '4'
    } else if d == 5 {
        '5'
    } else if d == 6 {
        '6'
    } else if d == 7 {
        '7'
    } else if d == 8 {
        '8'
    } else {
        '9'
    }
}

/// The decimal digit string of `n`, most significant digit first.
pub open spec fn dec_digits(n: nat) -> Seq<char>
    decreases n,
{
    if n < 10 {
        seq![digit_char(n)]
    } else {
        dec_digits(n / 10).push(digit_char(n % 10))
    }
}

/// The one-decimal rendering of a value in tenths: 124 becomes "12.4".
pub open spec fn tenths_text(t: nat) -> Seq<char> {
    dec_digits(t / 10).push('.').push(digit_char(t % 10))
}

/// Relies on `String::push`: appends exactly the given character.
#[verifier::external_body]
pub(crate) fn push_char(s: &mut String, c: char)
    ensures
        final(s)@ == old(s)@.push(c),
{
    s.push(c);
}

fn digit_of(d: u64) -> (c: char)
    requires
        d < 10,
    ensures
        c == digit_char(d as nat),
{
    match d {
        0 => '0',
        1 => '1',
        2 => '2',
        3 => '3',
        4 => '4',
        5 => '5',
        6 => '6',
        7 => '7',
        8 => '8',
        _ => '9',
    }
}

fn push_digits(s: &mut String, n: u64)
    ensures
        final(s)@ == old(s)@ + dec_digits(n as nat),
    decreases n,
{
    if n < 10 {
        push_char(s, digit_of(n));
    } else {
        push_digits(s, n / 10);
        push_char(s, digit_of(n % 10));
    }
    proof {
        assert(s@ =~= old(s)@ + dec_digits(n as nat));
    }
}

/// Renders a value in tenths with one decimal place, as the x-axis
/// labels show it: 124 becomes "12.4", 7 becomes "0.7".
pub fn format_tenths(t: u64) -> (r: String)
    ensures
        r@ == tenths_text(t as nat),
{
    let mut r = String::new();
    push_digits(&mut r, t / 10);
    push_char(&mut r, '.');
    push_char(&mut r, digit_of(t % 10));
    proof {
        assert(r@ =~= tenths_text(t as nat));
    }
    r
}

/// Renders a value in tenths as whole units, dropping the fraction, as
/// the y-axis labels show it: 500 becomes "50".
pub fn format_units(t: u64) -> (r: String)
    ensures
        r@ == dec_digits((t / 10) as nat),
{
    let mut r = String::new();
    push_digits(&mut r, t / 10);
    proof {
        assert(r@ =~= dec_digits((t / 10) as nat));
    }
    r
}

} // verus!
