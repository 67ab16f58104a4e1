//! Text: decimal numbers and the small pieces the C programs are assembled from.

use vstd::prelude::*;
use vstd::string::*;

verus! {

/// The character for one decimal digit.
pub open spec fn digit_char(d: nat) -> char {
    if d == 0 { '0' }
    else if d == 1 { '1' }
    else if d == 2 { '2' }
    else if d == 3 { '3' }
    else if d == 4 { '4' }
    else if d == 5 { '5' }
    else if d == 6 { '6' }
    else if d == 7 { '7' }
    else if d == 8 { '8' }
    else { '9' }
}

/// The decimal digits of a natural number, most significant first, with no leading zero.
pub open spec fn digits(n: nat) -> Seq<char>
    decreases n,
{
    if n < 10 {
        seq![digit_char(n)]
    } else {
        digits(n / 10).push(digit_char(n % 10))
    }
}

/// An integer written the way Rust's `Display` writes it: a minus sign when it is negative,
/// then its digits.
pub open spec fn decimal(v: int) -> Seq<char> {
    if v < 0 {
        seq!['-'] + digits((-v) as nat)
    } else {
        digits(v as nat)
    }
}

/// Appends one character to a string, by `String::push` from std, whose contract here claims
/// that the string's characters afterwards are the ones before with `c` added at the end.
#[verifier::external_body]
pub(crate) fn push_char(s: &mut String, c: char)
    ensures
        final(s)@ == old(s)@.push(c),
{
    s.push(c);
}

fn digit(d: u128) -> (c: char)
    requires
        d < 10,
    ensures
        c == digit_char(d as nat),
{
    if d == 0 { '0' }
    else if d == 1 { '1' }
    else if d == 2 { '2' }
    else if d == 3 { '3' }
    else if d == 4 { '4' }
    else if d == 5 { '5' }
    else if d == 6 { '6' }
    else if d == 7 { '7' }
    else if d == 8 { '8' }
    else { '9' }
}

/// Appends the digits of `n` to `out`.
pub fn push_digits(out: &mut String, n: u128)
    ensures
        final(out)@ == old(out)@ + digits(n as nat),
    decreases n,
{
    if n < 10 {
        push_char(out, digit(n));
    } else {
        push_digits(out, n / 10);
        push_char(out, digit(n % 10));
        assert(digits(n as nat) == digits((n / 10) as nat).push(digit_char((n % 10) as nat)));
    }
}

/// Appends an integer to `out` the way `Display` writes it.
pub fn push_decimal(out: &mut String, v: i128)
    ensures
        final(out)@ == old(out)@ + decimal(v as int),
{
    if v < 0 {
        push_char(out, '-');
        let magnitude: u128 = ((-(v + 1)) as u128) + 1;
        push_digits(out, magnitude);
        assert(old(out)@.push('-') + digits(magnitude as nat) == old(out)@ + (seq!['-']
            + digits(magnitude as nat)));
    } else {
        push_digits(out, v as u128);
    }
}

/// An integer written the way `Display` writes it.
pub fn decimal_string(v: i128) -> (r: String)
    ensures
        r@ == decimal(v as int),
{
    let mut r = String::new();
    push_decimal(&mut r, v);
    assert(Seq::<char>::empty() + decimal(v as int) == decimal(v as int));
    r
}

} // verus!
