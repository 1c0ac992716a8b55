//! Durations as the settings file writes them: a length of time behind a
//! human-readable text such as `"1h 30m"`.

use std::time::Duration;
use vstd::prelude::*;

verus! {

/// Nanoseconds in one second.
pub const NANOS_PER_SECOND: u64 = 1_000_000_000;

/// Seconds in the startup delay used when the file gives none.
pub const DEFAULT_DELAY_START_SECS: u64 = 1;

/// Seconds in the age limit used when the file gives none: 24 hours.
pub const DEFAULT_IGNORE_OLDER_THAN_SECS: u64 = 86_400;

/// Most decimal digits that a duration text may hold.
pub const MAX_DURATION_DIGITS: usize = 40;

/// Most decimal digits that one number of a duration text may hold.
pub const MAX_NUMBER_DIGITS: usize = 9;

/// The whole length of a `Duration`, in nanoseconds.
pub uninterp spec fn duration_nanos(d: Duration) -> nat;

/// What `humantime::parse_duration` makes of a text: the length in
/// nanoseconds, or `None` where it rejects the text.
pub uninterp spec fn human_duration(text: Seq<char>) -> Option<nat>;

/// The error that `humantime::parse_duration` returns.
#[verifier::external_type_specification]
#[verifier::external_body]
pub struct ExDurationError(humantime::DurationError);

/// `Duration::from_secs` makes a duration of that many whole seconds and no
/// fraction.
pub assume_specification[ Duration::from_secs ](secs: u64) -> (d: Duration)
    ensures
        duration_nanos(d) == secs as nat * NANOS_PER_SECOND as nat,
;

/// Whether a character is one of `'0'..='9'`.
pub open spec fn is_decimal_digit(c: char) -> bool {
    '0' <= c && c <= '9'
}

/// The number of decimal digits in a text.
pub open spec fn decimal_digits(text: Seq<char>) -> nat
    decreases text.len(),
{
    if text.len() == 0 {
        0
    } else {
        decimal_digits(text.drop_last()) + if is_decimal_digit(text.last()) {
            1nat
        } else {
            0nat
        }
    }
}

/// Whether a character ends a number: a letter or a period. The parser
/// reads on through blanks, so that `"12 34s"` holds the number 1234.
pub open spec fn ends_number(c: char) -> bool {
    ('a' <= c && c <= 'z') || ('A' <= c && c <= 'Z') || c == '\u{b5}' || c == '.'
}

/// The number of decimal digits of the number at the end of a text.
pub open spec fn digit_run(text: Seq<char>) -> nat
    decreases text.len(),
{
    if text.len() == 0 || ends_number(text.last()) {
        0
    } else if is_decimal_digit(text.last()) {
        digit_run(text.drop_last()) + 1
    } else {
        digit_run(text.drop_last())
    }
}

/// The most decimal digits that a number of a text holds.
pub open spec fn longest_digit_run(text: Seq<char>) -> nat
    decreases text.len(),
{
    if text.len() == 0 {
        0
    } else if digit_run(text) > longest_digit_run(text.drop_last()) {
        digit_run(text)
    } else {
        longest_digit_run(text.drop_last())
    }
}

/// Whether a text is short enough in numbers to be read as a duration: no
/// number of more than `MAX_NUMBER_DIGITS` digits, and no more than
/// `MAX_DURATION_DIGITS` digits in all.
pub open spec fn is_readable(text: Seq<char>) -> bool {
    decimal_digits(text) <= MAX_DURATION_DIGITS && longest_digit_run(text) <= MAX_NUMBER_DIGITS
}

/// The length of time that a text stands for, in nanoseconds, or `None`
/// where it is no duration.
pub open spec fn text_duration(text: Seq<char>) -> Option<nat> {
    if is_readable(text) {
        human_duration(text)
    } else {
        None
    }
}

/// The lengths, in nanoseconds, below which the text of a duration is sure
/// to be readable again: a thousand million years of 365.25 days.
pub open spec fn writable_nanos() -> nat {
    31_557_600_000_000_000_000_000_000
}

/// Calls `humantime::parse_duration`, which reads a chain of spans such as
/// `"2h 37min"`. A text it accepts gives the duration that `human_duration`
/// names; a text it rejects gives its error. Only readable texts are handed
/// to it: each of their numbers is below a thousand million and there are at
/// most forty of them, so that their spans cannot add up to all the seconds
/// that a `Duration` holds, where the parser's last step would panic.
#[verifier::external_body]
fn parse_human_duration(text: &str) -> (r: Result<Duration, humantime::DurationError>)
    requires
        is_readable(text@),
    ensures
        match r {
            Ok(d) => human_duration(text@) == Some(duration_nanos(d)),
            Err(_) => human_duration(text@) is None,
        },
{
    humantime::parse_duration(text)
}

/// Calls `humantime::format_duration` and collects what it displays: the
/// years, months, days, hours, minutes, seconds and fractions of the
/// duration, each a number and a unit. The crate promises that
/// `humantime::parse_duration` reads the text back as the same duration.
/// Below a thousand million years the years take at most nine digits and
/// the other eight numbers at most three each.
#[verifier::external_body]
fn format_human_duration(d: &Duration) -> (text: String)
    ensures
        human_duration(text@) == Some(duration_nanos(*d)),
        duration_nanos(*d) < writable_nanos() ==> is_readable(text@),
{
    humantime::format_duration(*d).to_string()
}

/// The startup delay used when the file gives none: one second.
pub fn default_delay_start() -> (d: Duration)
    ensures
        duration_nanos(d) == 1_000_000_000,
{
    Duration::from_secs(DEFAULT_DELAY_START_SECS)
}

/// The age limit used when the file gives none: 24 hours.
pub fn default_ignore_older_than() -> (d: Duration)
    ensures
        duration_nanos(d) == 86_400_000_000_000,
{
    Duration::from_secs(DEFAULT_IGNORE_OLDER_THAN_SECS)
}

/// Whether descriptions are matched when the file does not say: no.
pub fn default_false() -> (b: bool)
    ensures
        !b,
{
    false
}

/// Tells whether a text is short enough in numbers to be read as a duration.
pub fn readable(text: &str) -> (r: bool)
    ensures
        r == is_readable(text@),
{
    broadcast use vstd::string::axiom_spec_iter;

    let mut digits: usize = 0;
    let mut run: usize = 0;
    let mut ok = true;
    for c in iter: text.chars()
        invariant
            iter.seq() == text@,
            ok == is_readable(text@.take(iter.index())),
            ok ==> digits == decimal_digits(text@.take(iter.index())),
            ok ==> run == digit_run(text@.take(iter.index())),
    {
        proof {
            let read = iter.index();
            assert(text@.take(read + 1).drop_last() =~= text@.take(read));
            assert(text@.take(read + 1).last() == c);
        }
        if ok {
            if '0' <= c && c <= '9' {
                if digits >= MAX_DURATION_DIGITS || run >= MAX_NUMBER_DIGITS {
                    ok = false;
                } else {
                    digits = digits + 1;
                    run = run + 1;
                }
            } else if ('a' <= c && c <= 'z') || ('A' <= c && c <= 'Z') || c == '\u{b5}' || c == '.' {
                run = 0;
            }
        }
    }
    proof {
        assert(text@.take(text@.len() as int) =~= text@);
    }
    ok
}

/// Reads a text as a duration.
pub fn read_duration(text: &str) -> (r: Option<Duration>)
    ensures
        match r {
            Some(d) => text_duration(text@) == Some(duration_nanos(d)),
            None => text_duration(text@) is None,
        },
{
    if !readable(text) {
        return None;
    }
    match parse_human_duration(text) {
        Ok(d) => Some(d),
        Err(_) => None,
    }
}

/// Writes a duration as a text that `read_duration` reads back as the same
/// length, where the duration is shorter than `writable_nanos`.
pub fn write_duration(d: &Duration) -> (text: String)
    ensures
        human_duration(text@) == Some(duration_nanos(*d)),
        duration_nanos(*d) < writable_nanos() ==> text_duration(text@) == Some(
            duration_nanos(*d),
        ),
{
    format_human_duration(d)
}

} // verus!
