//! Time as the front ends need it: how long to keep a timed recording going,
//! and the label of the running timer.

use vstd::prelude::*;
use vstd::string::*;

verus! {

/// How long a front end sleeps between two looks at the clock, in
/// milliseconds.
pub const POLL_INTERVAL_MS: u64 = 100;

/// Whether a recording that was asked to last `duration` seconds goes on
/// after `elapsed_secs` seconds: as long as nobody interrupted it (`running`)
/// and its time is not up. A duration of zero sets no limit.
pub fn keep_recording(running: bool, duration: u32, elapsed_secs: u64) -> (keep: bool)
    ensures
        keep == (running && (duration == 0 || elapsed_secs < duration)),
{
    if duration > 0 {
        running && elapsed_secs < duration as u64
    } else {
        running
    }
}

/// The decimal digit `d` as a character.
pub open spec fn digit(d: int) -> char
    recommends
        0 <= d < 10,
{
    seq!['0', '1', '2', '3', '4', '5', '6', '7', '8', '9'][d]
}

/// `n` in decimal, without a sign and without leading zeros.
pub open spec fn decimal(n: nat) -> Seq<char>
    decreases n,
{
    if n < 10 {
        seq![digit(n as int)]
    } else {
        decimal(n / 10).push(digit(n as int % 10))
    }
}

/// `n` in decimal, filled with zeros to two characters; the minus sign of a
/// negative number counts as one of them.
pub open spec fn two_wide(n: int) -> Seq<char> {
    if n < 0 {
        seq!['-'] + decimal((-n) as nat)
    } else if n < 10 {
        seq!['0'] + decimal(n as nat)
    } else {
        decimal(n as nat)
    }
}

/// `a` divided by `b`, rounded toward zero.
pub open spec fn quotient_toward_zero(a: int, b: int) -> int
    recommends
        b > 0,
{
    if a >= 0 {
        a / b
    } else {
        -((-a) / b)
    }
}

/// What is left of `a` after `quotient_toward_zero(a, b)` times `b`: it has
/// the sign of `a`.
pub open spec fn remainder_toward_zero(a: int, b: int) -> int
    recommends
        b > 0,
{
    a - quotient_toward_zero(a, b) * b
}

/// The timer's label after `secs` seconds: whole minutes and the seconds
/// beyond them, each two wide, with a colon between.
pub open spec fn elapsed_text(secs: int) -> Seq<char> {
    two_wide(quotient_toward_zero(secs, 60)) + seq![':'] + two_wide(remainder_toward_zero(secs, 60))
}

/// The text of one decimal digit.
fn digit_text(d: u64) -> (text: &'static str)
    requires
        d < 10,
    ensures
        text@ == seq![digit(d as int)],
{
    proof {
        reveal_strlit("0");
        reveal_strlit("1");
        reveal_strlit("2");
        reveal_strlit("3");
        reveal_strlit("4");
        reveal_strlit("5");
        reveal_strlit("6");
        reveal_strlit("7");
        reveal_strlit("8");
        reveal_strlit("9");
    }
    let text = if d == 0 {
        "0"
    } else if d == 1 {
        "1"
    } else if d == 2 {
        "2"
    } else if d == 3 {
        "3"
    } else if d == 4 {
        "4"
    } else if d == 5 {
        "5"
    } else if d == 6 {
        "6"
    } else if d == 7 {
        "7"
    } else if d == 8 {
        "8"
    } else {
        "9"
    };
    assert(text@ =~= seq![digit(d as int)]);
    text
}

/// Appends `n` in decimal to `text`.
fn append_decimal(text: &mut String, n: u64)
    ensures
        final(text)@ == old(text)@ + decimal(n as nat),
    decreases n,
{
    if n >= 10 {
        append_decimal(text, n / 10);
    }
    text.append(digit_text(n % 10));
    assert(text@ =~= old(text)@ + decimal(n as nat));
}

/// Appends `n`, two wide, to `text`.
fn append_two_wide(text: &mut String, n: i64)
    ensures
        final(text)@ == old(text)@ + two_wide(n as int),
{
    proof {
        reveal_strlit("-");
        reveal_strlit("0");
    }
    if n < 0 {
        text.append("-");
        let magnitude: u64 = (-(n as i128)) as u64;
        append_decimal(text, magnitude);
    } else {
        if n < 10 {
            text.append("0");
        }
        append_decimal(text, n as u64);
    }
    assert(text@ =~= old(text)@ + two_wide(n as int));
}

/// The label of the running timer after `secs` seconds, as minutes and
/// seconds. A clock that was set back gives a negative `secs`; the label then
/// carries the minus signs.
pub fn elapsed_label(secs: i64) -> (label: String)
    ensures
        label@ == elapsed_text(secs as int),
{
    proof {
        reveal_strlit(":");
    }
    let minutes: i64 = secs / 60;
    let seconds: i64 = secs % 60;
    let mut label = String::new();
    append_two_wide(&mut label, minutes);
    label.append(":");
    append_two_wide(&mut label, seconds);
    assert(label@ =~= elapsed_text(secs as int));
    label
}

} // verus!
