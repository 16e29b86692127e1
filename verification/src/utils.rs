//! Text for a span of time, as a display shows it.

use vstd::prelude::*;

verus! {

/// The character that stands for a decimal digit.
pub open spec fn digit_char(d: nat) -> char {
    if d == 0 {
        '0'
    } else if d == 1 {
        '1'
    } else if d == 2 {
        '2'
    } else if d == 3 {
        '3'
    } else if d == 4 {
        '4'
    } else if d == 5 {
        '5'
    } else if d == 6 {
        '6'
    } else if d == 7 {
        '7'
    } else if d == 8 {
        '8'
    } else {
        '9'
    }
}

/// A number in decimal, most significant digit first, without padding.
pub open spec fn decimal(n: nat) -> Seq<char>
    decreases n,
{
    if n < 10 {
        seq![digit_char(n)]
    } else {
        decimal(n / 10).push(digit_char(n % 10))
    }
}

/// A number in decimal, padded with a zero to at least two digits.
pub open spec fn two_digits(n: nat) -> Seq<char> {
    if n < 10 {
        seq!['0', digit_char(n)]
    } else {
        decimal(n)
    }
}

/// Hours, minutes and seconds of a span given in whole seconds, each padded to
/// two digits and separated by colons. Hours are not wrapped at a day.
pub open spec fn clock_text(total_seconds: nat) -> Seq<char> {
    two_digits(total_seconds / 3600) + seq![':'] + two_digits((total_seconds % 3600) / 60)
        + seq![':'] + two_digits(total_seconds % 60)
}

fn digit_str(d: u8) -> (s: &'static str)
    requires
        d < 10,
    ensures
        s@ == seq![digit_char(d as nat)],
{
    proof {
        reveal_strlit("0");
        reveal_strlit("1");
        reveal_strlit("2");
        reveal_strlit("3");
        reveal_strlit("4");
        reveal_strlit("5");
        reveal_strlit("6");
        reveal_strlit("7");
        reveal_strlit("8");
        reveal_strlit("9");
    }
    let s: &'static str = match d {
        0 => "0",
        1 => "1",
        2 => "2",
        3 => "3",
        4 => "4",
        5 => "5",
        6 => "6",
        7 => "7",
        8 => "8",
        _ => "9",
    };
    assert(s@ =~= seq![digit_char(d as nat)]);
    s
}

fn push_decimal(out: &mut String, n: u128)
    ensures
        final(out)@ == old(out)@ + decimal(n as nat),
    decreases n,
{
    if n >= 10 {
        push_decimal(out, n / 10);
    }
    out.append(digit_str((n % 10) as u8));
    assert(out@ =~= old(out)@ + decimal(n as nat));
}

fn push_two_digits(out: &mut String, n: u128)
    ensures
        final(out)@ == old(out)@ + two_digits(n as nat),
{
    if n < 10 {
        out.append("0");
        proof {
            reveal_strlit("0");
        }
    }
    push_decimal(out, n);
    assert(out@ =~= old(out)@ + two_digits(n as nat));
}

/// Formats a span of whole seconds as `HH:MM:SS`.
pub fn format_seconds(total_seconds: u128) -> (text: String)
    ensures
        text@ == clock_text(total_seconds as nat),
{
    let hours: u128 = total_seconds / 3600;
    let minutes: u128 = (total_seconds % 3600) / 60;
    let seconds: u128 = total_seconds % 60;
    let mut text = String::new();
    push_two_digits(&mut text, hours);
    text.append(":");
    push_two_digits(&mut text, minutes);
    text.append(":");
    push_two_digits(&mut text, seconds);
    proof {
        reveal_strlit(":");
        assert(text@ =~= clock_text(total_seconds as nat));
    }
    text
}

/// Formats a span of milliseconds as `HH:MM:SS`; what is left of the last
/// second is dropped.
pub fn format_time(total_ms: u128) -> (text: String)
    ensures
        text@ == clock_text(total_ms as nat / 1000),
{
    format_seconds(total_ms / 1000)
}

} // verus!
