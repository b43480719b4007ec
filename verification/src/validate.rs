//! Reading a line of user input as a bounded MIDI parameter.
//!
//! A line is trimmed, then read as an unsigned decimal byte. Whatever the
//! line holds, the caller gets a usable number: the number read when it
//! lies within the bound, and the default `0` otherwise, together with a
//! warning that says why the default was taken.

use vstd::prelude::*;
use vstd::string::*;
use crate::text::{chars_of, decimal, parse_decimal, parse_digits, render_decimal, trim_bounds, trimmed};

verus! {

/// The largest MIDI data value.
pub const MAX_VALUE: u8 = 127;

/// The largest MIDI channel index.
pub const MAX_CHANNEL: u8 = 15;

/// What a line of input is, read against an upper bound.
#[derive(Clone, Copy, Debug, PartialEq, Eq, Structural)]
pub enum Reading {
    /// Nothing but whitespace: the silent default.
    Blank,
    /// Not an unsigned decimal number that fits a byte.
    Malformed,
    /// A byte above the bound.
    TooLarge(u8),
    /// A byte within the bound.
    Accepted(u8),
}

/// How `s` reads against the bound `max`.
pub open spec fn reading(s: Seq<char>, max: u8) -> Reading {
    let t = trimmed(s);
    if t.len() == 0 {
        Reading::Blank
    } else {
        match parse_decimal(t, 255) {
            None => Reading::Malformed,
            Some(n) => if n > max {
                Reading::TooLarge(n as u8)
            } else {
                Reading::Accepted(n as u8)
            },
        }
    }
}

/// The number a reading resolves to: itself when accepted, else `0`.
pub open spec fn resolved(r: Reading) -> u8 {
    match r {
        Reading::Accepted(v) => v,
        _ => 0,
    }
}

/// What is said of text that is no number. `noun` names the parameter
/// in lower case; `text` is the trimmed input, quoted as it stands.
pub open spec fn invalid_notice(noun: Seq<char>, text: Seq<char>) -> Seq<char> {
    "Invalid "@ + noun + " '"@ + text + "'. Using default "@ + noun + " 0."@
}

/// What is said of a number above the bound. `title` names the parameter
/// capitalised, `noun` in lower case; the number is spelt as read.
pub open spec fn range_notice(title: Seq<char>, noun: Seq<char>, found: u8, max: u8) -> Seq<
    char,
> {
    title + " "@ + decimal(found as nat) + " is out of range (0-"@ + decimal(max as nat)
        + "). Using default "@ + noun + " 0."@
}

/// The warning for text that is no number.
pub open spec fn warning_invalid(noun: Seq<char>, text: Seq<char>) -> Seq<char> {
    "Warning: "@ + invalid_notice(noun, text)
}

/// The warning for a number above the bound.
pub open spec fn warning_range(title: Seq<char>, noun: Seq<char>, found: u8, max: u8) -> Seq<
    char,
> {
    "Warning: "@ + range_notice(title, noun, found, max)
}

/// The warning that goes with a reading of `s`, if any.
pub open spec fn warning(s: Seq<char>, max: u8, title: Seq<char>, noun: Seq<char>) -> Option<
    Seq<char>,
> {
    match reading(s, max) {
        Reading::Blank => None,
        Reading::Malformed => Some(warning_invalid(noun, trimmed(s))),
        Reading::TooLarge(v) => Some(warning_range(title, noun, v, max)),
        Reading::Accepted(_) => None,
    }
}

/// What validation of `s` yields: the resolved number and the warning.
pub open spec fn outcome(s: Seq<char>, max: u8, title: Seq<char>, noun: Seq<char>) -> (
    u8,
    Option<Seq<char>>,
) {
    (resolved(reading(s, max)), warning(s, max, title, noun))
}

/// What validation of `s` as a MIDI data value yields.
pub open spec fn value_outcome(s: Seq<char>) -> (u8, Option<Seq<char>>) {
    outcome(s, MAX_VALUE, "Value"@, "value"@)
}

/// What validation of `s` as a MIDI channel yields.
pub open spec fn channel_outcome(s: Seq<char>) -> (u8, Option<Seq<char>>) {
    outcome(s, MAX_CHANNEL, "Channel"@, "channel"@)
}

/// The view of an optional string.
pub open spec fn text_of(w: Option<String>) -> Option<Seq<char>> {
    match w {
        Some(s) => Some(s@),
        None => None,
    }
}

/// `input` without leading and trailing whitespace.
pub fn trim(input: &str) -> (r: &str)
    ensures
        r@ == trimmed(input@),
{
    let chars: Vec<char> = chars_of(input);
    let (lo, hi) = trim_bounds(&chars);
    input.substring_char(lo, hi)
}

/// Reads `input` against the bound `max`.
pub fn classify(input: &str, max: u8) -> (r: Reading)
    ensures
        r == reading(input@, max),
{
    let chars: Vec<char> = chars_of(input);
    let (lo, hi) = trim_bounds(&chars);
    if lo == hi {
        return Reading::Blank;
    }
    match parse_digits(&chars, lo, hi, 255) {
        None => Reading::Malformed,
        Some(n) => {
            if n > max as usize {
                Reading::TooLarge(n as u8)
            } else {
                Reading::Accepted(n as u8)
            }
        },
    }
}

/// Writes the warning for text that is no number.
pub fn invalid_warning(noun: &str, text: &str) -> (r: String)
    ensures
        r@ == warning_invalid(noun@, text@),
{
    let mut notice: String = String::from_str("Invalid ");
    notice.append(noun);
    notice.append(" '");
    notice.append(text);
    notice.append("'. Using default ");
    notice.append(noun);
    notice.append(" 0.");
    String::from_str("Warning: ").concat(notice.as_str())
}

/// Writes the warning for a number above the bound.
pub fn range_warning(title: &str, noun: &str, found: u8, max: u8) -> (r: String)
    ensures
        r@ == warning_range(title@, noun@, found, max),
{
    let found_text: String = render_decimal(found as usize);
    let max_text: String = render_decimal(max as usize);
    let mut notice: String = String::from_str(title);
    notice.append(" ");
    notice.append(found_text.as_str());
    notice.append(" is out of range (0-");
    notice.append(max_text.as_str());
    notice.append("). Using default ");
    notice.append(noun);
    notice.append(" 0.");
    String::from_str("Warning: ").concat(notice.as_str())
}

/// Validates `input` against the bound `max`, wording the warning with
/// `title` and `noun`.
pub fn validate_bounded(input: &str, max: u8, title: &str, noun: &str) -> (r: (
    u8,
    Option<String>,
))
    ensures
        (r.0, text_of(r.1)) == outcome(input@, max, title@, noun@),
        r.0 <= max,
{
    match classify(input, max) {
        Reading::Blank => (0, None),
        Reading::Malformed => (0, Some(invalid_warning(noun, trim(input)))),
        Reading::TooLarge(v) => (0, Some(range_warning(title, noun, v, max))),
        Reading::Accepted(v) => (v, None),
    }
}

/// Validates a line of input as a MIDI data value, `0` to `127`.
///
/// Blank input resolves to `0` without a warning. Text that is no
/// unsigned decimal byte, and a byte above `127`, resolve to `0` with a
/// warning that names the trimmed text or the number read.
pub fn validate_midi_value(input: &str) -> (r: (u8, Option<String>))
    ensures
        (r.0, text_of(r.1)) == value_outcome(input@),
        r.0 <= MAX_VALUE,
{
    validate_bounded(input, MAX_VALUE, "Value", "value")
}

/// Validates a line of input as a MIDI channel, `0` to `15`.
///
/// Blank input resolves to `0` without a warning. Text that is no
/// unsigned decimal byte, and a byte above `15`, resolve to `0` with a
/// warning that names the trimmed text or the number read.
pub fn validate_midi_channel(input: &str) -> (r: (u8, Option<String>))
    ensures
        (r.0, text_of(r.1)) == channel_outcome(input@),
        r.0 <= MAX_CHANNEL,
{
    validate_bounded(input, MAX_CHANNEL, "Channel", "channel")
}

} // verus!
