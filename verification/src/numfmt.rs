//! Decimal rendering of millisecond offsets.
//!
//! The decoder and export tools take seek offsets on their command line as
//! seconds with a fixed number of decimals. These functions render an
//! integer number of milliseconds exactly, with no floating point: the
//! three-decimal form is exact, the two-decimal form rounds to the nearest
//! hundredth of a second, ties up.

use vstd::prelude::*;

verus! {

/// The decimal digit `d` as a character; `d` must lie in 0..=9.
pub open spec fn digit_char(d: int) -> char {
    if d == 0 {
        '0'
    } else if d == 1 {
        '1'
    } else if d == 2 {
        '2'
    } else if d == 3 {
        '3'
    } else if d == 4 {
        '4'
    } else if d == 5 {
        '5'
    } else if d == 6 {
        '6'
    } else if d == 7 {
        '7'
    } else if d == 8 {
        '8'
    } else {
        '9'
    }
}

/// The usual base-10 rendering of `n`, most significant digit first, no
/// leading zeros (a single `'0'` for zero).
pub open spec fn dec_digits(n: nat) -> Seq<char>
    decreases n,
{
    if n <= 9 {
        seq![digit_char(n as int)]
    } else {
        dec_digits(n / 10).push(digit_char((n % 10) as int))
    }
}

/// `ms` milliseconds as seconds with exactly three decimals, e.g. 1500 as
/// "1.500". This is the precision the decoder invocation uses.
pub open spec fn secs_3dp(ms: int) -> Seq<char> {
    dec_digits((ms / 1000) as nat) + seq![
        '.',
        digit_char((ms / 100) % 10),
        digit_char((ms / 10) % 10),
        digit_char(ms % 10),
    ]
}

/// `ms` milliseconds as seconds with exactly two decimals, rounded to the
/// nearest hundredth (ties up), e.g. 1995 as "2.00". This is the precision
/// the export invocation uses.
pub open spec fn secs_2dp(ms: int) -> Seq<char> {
    let h = (ms + 5) / 10;  // hundredths of a second
    dec_digits((h / 100) as nat) + seq!['.', digit_char((h / 10) % 10), digit_char(h % 10)]
}

/// Relies on `String::push`: appends the given character to the end of the
/// string.
#[verifier::external_body]
pub(crate) fn push_char(s: &mut String, c: char)
    ensures
        final(s)@ == old(s)@.push(c),
{
    s.push(c);
}

/// Relies on `String::push_str`: appends the given string slice to the end
/// of the string.
#[verifier::external_body]
pub(crate) fn push_str(s: &mut String, t: &str)
    ensures
        final(s)@ == old(s)@ + t@,
{
    s.push_str(t);
}

/// The character for one digit value.
fn digit_to_char(d: u64) -> (c: char)
    requires
        d < 10,
    ensures
        c == digit_char(d as int),
{
    if d == 0 {
        '0'
    } else if d == 1 {
        '1'
    } else if d == 2 {
        '2'
    } else if d == 3 {
        '3'
    } else if d == 4 {
        '4'
    } else if d == 5 {
        '5'
    } else if d == 6 {
        '6'
    } else if d == 7 {
        '7'
    } else if d == 8 {
        '8'
    } else {
        '9'
    }
}

/// Appends the base-10 rendering of `n`.
pub(crate) fn push_decimal(s: &mut String, n: u64)
    ensures
        final(s)@ == old(s)@ + dec_digits(n as nat),
    decreases n,
{
    if n <= 9 {
        let c = digit_to_char(n);
        push_char(s, c);
        proof {
            assert(s@ =~= old(s)@ + dec_digits(n as nat));
        }
    } else {
        push_decimal(s, n / 10);
        let c = digit_to_char(n % 10);
        push_char(s, c);
        proof {
            assert(s@ =~= old(s)@ + dec_digits(n as nat));
        }
    }
}

/// Renders `ms` milliseconds as seconds with three decimals.
pub fn format_secs_3dp(ms: u64) -> (r: String)
    ensures
        r@ == secs_3dp(ms as int),
{
    let mut r = String::new();
    push_decimal(&mut r, ms / 1000);
    push_char(&mut r, '.');
    let d0 = digit_to_char((ms / 100) % 10);
    push_char(&mut r, d0);
    let d1 = digit_to_char((ms / 10) % 10);
    push_char(&mut r, d1);
    let d2 = digit_to_char(ms % 10);
    push_char(&mut r, d2);
    proof {
        assert(r@ =~= secs_3dp(ms as int));
    }
    r
}

/// Renders `ms` milliseconds as seconds with two decimals, rounded to the
/// nearest hundredth, ties up.
pub fn format_secs_2dp(ms: u64) -> (r: String)
    requires
        ms + 5 <= u64::MAX,
    ensures
        r@ == secs_2dp(ms as int),
{
    let h = (ms + 5) / 10;
    let mut r = String::new();
    push_decimal(&mut r, h / 100);
    push_char(&mut r, '.');
    let d0 = digit_to_char((h / 10) % 10);
    push_char(&mut r, d0);
    let d1 = digit_to_char(h % 10);
    push_char(&mut r, d1);
    proof {
        assert(r@ =~= secs_2dp(ms as int));
    }
    r
}

} // verus!
