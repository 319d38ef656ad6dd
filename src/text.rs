//! Decimal rendering of integers and fixed-point values.

use vstd::prelude::*;
use vstd::arithmetic::div_mod::lemma_div_is_ordered_by_denominator;

verus! {

/// Relies on `String::push`: the character is appended at the end.
#[verifier::external_body]
pub(crate) fn push_char(s: &mut String, c: char)
    ensures
        final(s)@ == old(s)@.push(c),
{
    s.push(c)
}

/// The ASCII digit for `d`, for `0 <= d < 10`.
pub open spec fn digit_char(d: int) -> char {
    (d + 48) as char
}

/// The decimal notation of `n`, without leading zeros (`"0"` for zero).
pub open spec fn decimal(n: nat) -> Seq<char>
    decreases n,
{
    if n < 10 {
        seq![digit_char(n as int)]
    } else {
        decimal(n / 10).push(digit_char((n % 10) as int))
    }
}

fn digit(d: u128) -> (c: char)
    requires
        d < 10,
    ensures
        c == digit_char(d as int),
{
    let b: u8 = (d as u8) + 48;
    b as char
}

/// Appends the decimal notation of `n` to `out`.
pub fn push_decimal(out: &mut String, n: u128)
    ensures
        final(out)@ == old(out)@ + decimal(n as nat),
    decreases n,
{
    if n >= 10 {
        push_decimal(out, n / 10);
    }
    push_char(out, digit(n % 10));
}


/// `n / d` rounded to the nearest integer, ties to the even neighbour: the
/// rounding that decimal formatting of an exact binary value performs.
pub open spec fn round_div(n: nat, d: nat) -> nat
    recommends
        d > 0,
{
    let q = n / d;
    let r = n % d;
    if 2 * r > d {
        q + 1
    } else if 2 * r < d {
        q
    } else if q % 2 == 0 {
        q
    } else {
        q + 1
    }
}

/// A count of tenths written with one decimal place (`123` is `"12.3"`).
pub open spec fn tenths_text(t: nat) -> Seq<char> {
    decimal(t / 10).push('.').push(digit_char((t % 10) as int))
}

/// `n / d` with one decimal place, rounded as `round_div` does.
pub open spec fn ratio_text(n: nat, d: nat) -> Seq<char> {
    tenths_text(round_div(n * 10, d))
}

/// `(a - b) / d` with one decimal place, with a leading minus sign when
/// `b > a` (kept even where the rounded value is zero).
pub open spec fn signed_ratio_text(a: nat, b: nat, d: nat) -> Seq<char> {
    if a >= b {
        ratio_text((a - b) as nat, d)
    } else {
        seq!['-'] + ratio_text((b - a) as nat, d)
    }
}

/// Computes `round_div(n, d)`.
pub fn rounded_div(n: u128, d: u128) -> (r: u128)
    requires
        d > 0,
    ensures
        r == round_div(n as nat, d as nat),
{
    let q = n / d;
    let rem = n % d;
    if rem > d - rem || (rem == d - rem && q % 2 == 1) {
        // here `d >= 2`, so `q <= n / 2` leaves room for one more
        proof {
            lemma_div_is_ordered_by_denominator(n as int, 2, d as int);
        }
        q + 1
    } else {
        q
    }
}

/// Appends `tenths_text(t)`.
pub fn push_tenths(out: &mut String, t: u128)
    ensures
        final(out)@ == old(out)@ + tenths_text(t as nat),
{
    push_decimal(out, t / 10);
    push_char(out, '.');
    push_char(out, digit(t % 10));
    proof {
        let a = old(out)@;
        assert(a + decimal((t / 10) as nat) + seq!['.'] + seq![digit_char((t % 10) as int)]
            =~= a + tenths_text(t as nat));
    }
}

/// Appends `ratio_text(n, d)`.
pub fn push_ratio(out: &mut String, n: u64, d: u128)
    requires
        d > 0,
    ensures
        final(out)@ == old(out)@ + ratio_text(n as nat, d as nat),
{
    let scaled: u128 = (n as u128) * 10;
    let t = rounded_div(scaled, d);
    push_tenths(out, t);
}

/// Appends `signed_ratio_text(a, b, d)`.
pub fn push_signed_ratio(out: &mut String, a: u64, b: u64, d: u128)
    requires
        d > 0,
    ensures
        final(out)@ == old(out)@ + signed_ratio_text(a as nat, b as nat, d as nat),
{
    if a >= b {
        push_ratio(out, a - b, d);
    } else {
        push_char(out, '-');
        push_ratio(out, b - a, d);
        proof {
            let x = old(out)@;
            assert(x.push('-') + ratio_text((b - a) as nat, d as nat)
                =~= x + (seq!['-'] + ratio_text((b - a) as nat, d as nat)));
        }
    }
}

} // verus!
