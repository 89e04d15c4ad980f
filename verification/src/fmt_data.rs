//! Text building blocks of the display line: decimal numbers, clock times,
//! rates and runs of one glyph.

use vstd::prelude::*;

verus! {

/// `String::push` appends the given character to the end of the string and
/// changes nothing else.
pub assume_specification[ String::push ](s: &mut String, ch: char)
    ensures
        final(s)@ == old(s)@.push(ch),
;

/// The character of one decimal digit; the last digit for anything beyond it.
pub open spec fn digit(d: nat) -> char {
    if d == 0 {
        '0'
    } else if d == 1 {
        '1'
    } else if d == 2 {
        '2'
    } else if d == 3 {
        '3'
    } else if d == 4 {
        '4'
    } else if d == 5 {
        '5'
    } else if d == 6 {
        '6'
    } else if d == 7 {
        '7'
    } else if d == 8 {
        '8'
    } else {
        '9'
    }
}

/// Decimal notation of `n`, without sign, padding or leading zeros.
pub open spec fn decimal(n: nat) -> Seq<char>
    decreases n,
{
    if n < 10 {
        seq![digit(n)]
    } else {
        decimal(n / 10).push(digit(n % 10))
    }
}

/// The last two decimal digits of `n`, zero-padded.
pub open spec fn two_digits(n: nat) -> Seq<char> {
    seq![digit(n / 10 % 10), digit(n % 10)]
}

/// A duration of `secs` seconds as `MM:SS`, or `H:MM:SS` from one hour on.
pub open spec fn clock(secs: nat) -> Seq<char> {
    if secs < 3600 {
        two_digits(secs / 60) + seq![':'] + two_digits(secs % 60)
    } else {
        decimal(secs / 3600) + seq![':'] + two_digits(secs / 60 % 60) + seq![':'] + two_digits(
            secs % 60,
        )
    }
}

/// A rate given in thousandths of an iteration per second, as a decimal
/// number with two places, truncated.
pub open spec fn rate_text(milli: nat) -> Seq<char> {
    decimal(milli / 1000) + seq!['.'] + two_digits(milli % 1000 / 10)
}

/// A percentage right-aligned in three columns.
pub open spec fn percent_text(p: nat) -> Seq<char> {
    if p < 10 {
        seq![' ', ' ', digit(p)]
    } else if p < 100 {
        seq![' '] + two_digits(p)
    } else {
        decimal(p)
    }
}

/// `n` copies of the glyph `c`.
pub open spec fn repeat(c: char, n: nat) -> Seq<char> {
    Seq::new(n, |i: int| c)
}

/// The character of the decimal digit `d`; the last digit for anything
/// beyond it.
pub fn digit_char(d: u8) -> (out: char)
    ensures
        out == digit(d as nat),
{
    if d == 0 {
        '0'
    } else if d == 1 {
        '1'
    } else if d == 2 {
        '2'
    } else if d == 3 {
        '3'
    } else if d == 4 {
        '4'
    } else if d == 5 {
        '5'
    } else if d == 6 {
        '6'
    } else if d == 7 {
        '7'
    } else if d == 8 {
        '8'
    } else {
        '9'
    }
}

/// Appends the decimal notation of `n` to `out`.
pub fn push_decimal(out: &mut String, n: u128)
    ensures
        final(out)@ == old(out)@ + decimal(n as nat),
    decreases n,
{
    if n >= 10 {
        push_decimal(out, n / 10);
    }
    out.push(digit_char((n % 10) as u8));
}

/// Appends the last two decimal digits of `n`, zero-padded, to `out`.
pub fn push_two_digits(out: &mut String, n: u128)
    ensures
        final(out)@ == old(out)@ + two_digits(n as nat),
{
    out.push(digit_char((n / 10 % 10) as u8));
    out.push(digit_char((n % 10) as u8));
}

/// Appends `secs` seconds as a clock time to `out`.
pub fn push_clock(out: &mut String, secs: u128)
    ensures
        final(out)@ == old(out)@ + clock(secs as nat),
{
    if secs < 3600 {
        push_two_digits(out, secs / 60);
        out.push(':');
        push_two_digits(out, secs % 60);
    } else {
        push_decimal(out, secs / 3600);
        out.push(':');
        push_two_digits(out, secs / 60 % 60);
        out.push(':');
        push_two_digits(out, secs % 60);
    }
}

/// Appends a rate in thousandths of an iteration per second to `out`.
pub fn push_rate(out: &mut String, milli: u128)
    ensures
        final(out)@ == old(out)@ + rate_text(milli as nat),
{
    push_decimal(out, milli / 1000);
    out.push('.');
    push_two_digits(out, milli % 1000 / 10);
}

/// Appends a percentage, right-aligned in three columns, to `out`.
pub fn push_percent(out: &mut String, p: u128)
    ensures
        final(out)@ == old(out)@ + percent_text(p as nat),
{
    if p < 10 {
        out.push(' ');
        out.push(' ');
        out.push(digit_char(p as u8));
    } else if p < 100 {
        out.push(' ');
        push_two_digits(out, p);
    } else {
        push_decimal(out, p);
    }
}

/// Appends `n` copies of the glyph `c` to `out`.
pub fn push_repeat(out: &mut String, c: char, n: usize)
    ensures
        final(out)@ == old(out)@ + repeat(c, n as nat),
{
    let mut i: usize = 0;
    while i < n
        invariant
            i <= n,
            out@ == old(out)@ + repeat(c, i as nat),
        decreases n - i,
    {
        out.push(c);
        i = i + 1;
    }
}

} // verus!
