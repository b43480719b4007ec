//! What holds of validation and encoding for every input, proved over the
//! models that the functions' contracts are stated in.

use vstd::prelude::*;
use crate::message::{encoded, is_control_change, label, MessageError};
use crate::text::{
    contains, decimal, digit_char, digits_value, is_digit, is_digits, is_space, parse_decimal,
    trim_back, trim_front, trimmed, trims_at,
};
use crate::validate::{
    channel_outcome, invalid_notice, outcome, range_notice, value_outcome, warning_invalid,
    warning_range,
};

verus! {

/// A decimal spelling is a run of digits that denotes the number spelt.
pub proof fn lemma_decimal_reads_back(n: nat)
    ensures
        is_digits(decimal(n)),
        digits_value(decimal(n)) == n,
    decreases n,
{
    if n < 10 {
        let s = decimal(n);
        assert(s.drop_last().len() == 0);
        assert(digits_value(s.drop_last()) == 0);
    } else {
        lemma_decimal_reads_back(n / 10);
        let s = decimal(n);
        assert(s.drop_last() =~= decimal(n / 10));
        assert(s.last() == digit_char(n % 10));
        assert forall|i: int| 0 <= i < s.len() implies is_digit(#[trigger] s[i]) by {
            if i < s.len() - 1 {
                assert(s[i] == decimal(n / 10)[i]);
            }
        }
    }
}

/// What is left of the front trim does not begin with whitespace.
pub proof fn lemma_trim_front_head(s: Seq<char>)
    ensures
        trim_front(s).len() == 0 || !is_space(trim_front(s)[0]),
    decreases s.len(),
{
    if s.len() > 0 && is_space(s[0]) {
        lemma_trim_front_head(s.drop_first());
    }
}

/// What is left of the front trim is the text behind its leading
/// whitespace.
pub proof fn lemma_trim_front_suffix(s: Seq<char>)
    ensures
        trim_front(s).len() <= s.len(),
        trim_front(s) == s.skip(s.len() - trim_front(s).len()),
        forall|j: int| 0 <= j < s.len() - trim_front(s).len() ==> is_space(#[trigger] s[j]),
    decreases s.len(),
{
    if s.len() > 0 && is_space(s[0]) {
        let d = s.drop_first();
        lemma_trim_front_suffix(d);
        let k = d.len() - trim_front(d).len();
        assert(d.skip(k) =~= s.skip(k + 1));
        assert forall|j: int| 0 <= j < k + 1 implies is_space(#[trigger] s[j]) by {
            if j > 0 {
                assert(s[j] == d[j - 1]);
            }
        }
    } else {
        assert(s.skip(0) =~= s);
    }
}

/// What is left of the back trim is the text before its trailing
/// whitespace, and does not end with whitespace.
pub proof fn lemma_trim_back_tail(s: Seq<char>)
    ensures
        trim_back(s).len() <= s.len(),
        trim_back(s) == s.take(trim_back(s).len() as int),
        trim_back(s).len() == 0 || !is_space(trim_back(s).last()),
        forall|j: int| trim_back(s).len() <= j < s.len() ==> is_space(#[trigger] s[j]),
    decreases s.len(),
{
    if s.len() > 0 && is_space(s.last()) {
        let d = s.drop_last();
        lemma_trim_back_tail(d);
        assert(d.take(trim_back(s).len() as int) =~= s.take(trim_back(s).len() as int));
        assert forall|j: int| trim_back(s).len() <= j < s.len() implies is_space(
            #[trigger] s[j],
        ) by {
            if j < d.len() {
                assert(s[j] == d[j]);
            }
        }
    } else {
        assert(s.take(s.len() as int) =~= s);
    }
}

/// Text made of whitespace alone trims to nothing.
pub proof fn lemma_blank_trims_to_nothing(s: Seq<char>)
    requires
        forall|i: int| 0 <= i < s.len() ==> is_space(#[trigger] s[i]),
    ensures
        trimmed(s).len() == 0,
    decreases s.len(),
{
    if s.len() > 0 {
        lemma_blank_trims_to_nothing(s.drop_first());
    }
}

/// Trimmed text neither begins nor ends with whitespace, so trimming it
/// again changes nothing.
pub proof fn law_trim_is_idempotent(s: Seq<char>)
    ensures
        trimmed(s).len() > 0 ==> !is_space(trimmed(s)[0]) && !is_space(trimmed(s).last()),
        trimmed(trimmed(s)) == trimmed(s),
{
    lemma_trim_front_head(s);
    lemma_trim_back_tail(trim_front(s));
}

/// Trimming takes whitespace off both ends and nothing else: every text
/// is whitespace, then its trimmed text, then whitespace.
pub proof fn law_trim_takes_only_whitespace(s: Seq<char>)
    ensures
        exists|lo: int| trims_at(s, lo),
{
    lemma_trim_front_suffix(s);
    let u = trim_front(s);
    lemma_trim_back_tail(u);
    let lo: int = s.len() - u.len();
    let hi: int = lo + trimmed(s).len();
    assert(s.subrange(lo, hi) =~= u.take(trimmed(s).len() as int));
    assert forall|j: int| hi <= j < s.len() implies is_space(#[trigger] s[j]) by {
        assert(s[j] == u[j - lo]);
    }
    assert(trims_at(s, lo));
}

/// A decimal spelling holds no whitespace to trim.
pub proof fn lemma_decimal_is_trimmed(n: nat)
    ensures
        trimmed(decimal(n)) == decimal(n),
{
    lemma_decimal_reads_back(n);
    let s = decimal(n);
    assert(is_digit(s[0]));
    assert(is_digit(s.last()));
}

/// A needle found in the left part of a concatenation is found in the whole.
pub proof fn lemma_contains_left(a: Seq<char>, b: Seq<char>, needle: Seq<char>)
    requires
        contains(a, needle),
    ensures
        contains(a + b, needle),
{
    let i = choose|i: int|
        0 <= i && i + needle.len() <= a.len() && #[trigger] a.subrange(i, i + needle.len())
            == needle;
    assert((a + b).subrange(i, i + needle.len()) =~= needle);
}

/// A needle found in the right part of a concatenation is found in the whole.
pub proof fn lemma_contains_right(a: Seq<char>, b: Seq<char>, needle: Seq<char>)
    requires
        contains(b, needle),
    ensures
        contains(a + b, needle),
{
    let i = choose|i: int|
        0 <= i && i + needle.len() <= b.len() && #[trigger] b.subrange(i, i + needle.len())
            == needle;
    assert((a + b).subrange(a.len() + i, a.len() + i + needle.len()) =~= needle);
}

/// Every text contains itself.
pub proof fn lemma_contains_self(s: Seq<char>)
    ensures
        contains(s, s),
{
    assert(s.subrange(0int, 0int + s.len()) =~= s);
}

/// The warning for malformed input is the notice behind "Warning: "; it
/// says "Invalid", names the parameter and quotes the text it was given.
pub proof fn lemma_invalid_warning_quotes(noun: Seq<char>, text: Seq<char>)
    ensures
        contains(warning_invalid(noun, text), "Warning"@),
        contains(warning_invalid(noun, text), invalid_notice(noun, text)),
        contains(warning_invalid(noun, text), "Invalid "@ + noun),
        contains(warning_invalid(noun, text), text),
{
    let notice = invalid_notice(noun, text);
    let key = "Invalid "@ + noun;
    let a = key + " '"@;
    lemma_contains_self(text);
    lemma_contains_right(a, text, text);
    lemma_contains_left(a + text, "'. Using default "@, text);
    lemma_contains_left(a + text + "'. Using default "@, noun, text);
    lemma_contains_left(a + text + "'. Using default "@ + noun, " 0."@, text);
    lemma_contains_right("Warning: "@, notice, text);

    lemma_contains_self(key);
    lemma_contains_left(key, " '"@, key);
    lemma_contains_left(a, text, key);
    lemma_contains_left(a + text, "'. Using default "@, key);
    lemma_contains_left(a + text + "'. Using default "@, noun, key);
    lemma_contains_left(a + text + "'. Using default "@ + noun, " 0."@, key);
    lemma_contains_right("Warning: "@, notice, key);

    lemma_contains_self(notice);
    lemma_contains_right("Warning: "@, notice, notice);
    lemma_warning_prefix(notice);
}

/// Text behind "Warning: " contains the word "Warning".
pub proof fn lemma_warning_prefix(notice: Seq<char>)
    ensures
        contains("Warning: "@ + notice, "Warning"@),
{
    reveal_strlit("Warning: ");
    reveal_strlit("Warning");
    let head = "Warning: "@;
    let word = "Warning"@;
    assert(head.subrange(0int, 0int + word.len()) =~= word);
    lemma_contains_left(head, notice, word);
}

/// The warning for a number above the bound is the notice behind
/// "Warning: "; it says "out of range" and spells the number and the bound.
pub proof fn lemma_range_warning_spells(title: Seq<char>, noun: Seq<char>, found: u8, max: u8)
    ensures
        contains(warning_range(title, noun, found, max), "Warning"@),
        contains(warning_range(title, noun, found, max), range_notice(title, noun, found, max)),
        contains(warning_range(title, noun, found, max), "out of range"@),
        contains(warning_range(title, noun, found, max), decimal(found as nat)),
        contains(warning_range(title, noun, found, max), "(0-"@ + decimal(max as nat) + ")"@),
{
    let notice = range_notice(title, noun, found, max);
    let a = title + " "@;
    let num = decimal(found as nat);
    let mid = " is out of range (0-"@;
    let bound = decimal(max as nat);
    let tail = "). Using default "@;

    lemma_contains_self(num);
    lemma_contains_right(a, num, num);
    lemma_contains_left(a + num, mid, num);
    lemma_contains_left(a + num + mid, bound, num);
    lemma_contains_left(a + num + mid + bound, tail, num);
    lemma_contains_left(a + num + mid + bound + tail, noun, num);
    lemma_contains_left(a + num + mid + bound + tail + noun, " 0."@, num);
    lemma_contains_right("Warning: "@, notice, num);

    let key = "out of range"@;
    reveal_strlit(" is out of range (0-");
    reveal_strlit("out of range");
    assert(mid.subrange(4int, 4int + key.len()) =~= key);
    lemma_contains_right(a + num, mid, key);
    lemma_contains_left(a + num + mid, bound, key);
    lemma_contains_left(a + num + mid + bound, tail, key);
    lemma_contains_left(a + num + mid + bound + tail, noun, key);
    lemma_contains_left(a + num + mid + bound + tail + noun, " 0."@, key);
    lemma_contains_right("Warning: "@, notice, key);

    let range = "(0-"@ + bound + ")"@;
    reveal_strlit("). Using default ");
    reveal_strlit("(0-");
    reveal_strlit(")");
    let whole = a + num + mid + bound + tail;
    let at: int = (a + num).len() + 17int;
    assert(whole.subrange(at, at + range.len()) =~= range);
    lemma_contains_left(whole, noun, range);
    lemma_contains_left(whole + noun, " 0."@, range);
    lemma_contains_right("Warning: "@, notice, range);

    lemma_contains_self(notice);
    lemma_contains_right("Warning: "@, notice, notice);
    lemma_warning_prefix(notice);
}

/// Leading and trailing whitespace has no part in the outcome.
pub proof fn law_padding_is_ignored(s: Seq<char>, max: u8, title: Seq<char>, noun: Seq<char>)
    ensures
        outcome(s, max, title, noun) == outcome(trimmed(s), max, title, noun),
{
    law_trim_is_idempotent(s);
}

/// Empty input, and input of whitespace alone, resolves to `0` with no
/// warning, whatever the bound.
pub proof fn law_blank_is_silent_default(s: Seq<char>, max: u8, title: Seq<char>, noun: Seq<char>)
    requires
        forall|i: int| 0 <= i < s.len() ==> is_space(#[trigger] s[i]),
    ensures
        outcome(s, max, title, noun) == (0u8, None::<Seq<char>>),
        value_outcome(s) == (0u8, None::<Seq<char>>),
        channel_outcome(s) == (0u8, None::<Seq<char>>),
{
    lemma_blank_trims_to_nothing(s);
}

/// A number within the bound, spelt in decimal, resolves to itself with
/// no warning.
pub proof fn law_in_range_is_kept(v: u8, max: u8, title: Seq<char>, noun: Seq<char>)
    requires
        v <= max,
    ensures
        outcome(decimal(v as nat), max, title, noun) == (v, None::<Seq<char>>),
{
    lemma_decimal_reads_back(v as nat);
    lemma_decimal_is_trimmed(v as nat);
}

/// A byte above the bound, spelt in decimal, resolves to `0` with a
/// warning that says "out of range" and spells the byte and the bound.
pub proof fn law_above_range_is_replaced(v: u8, max: u8, title: Seq<char>, noun: Seq<char>)
    requires
        v > max,
    ensures
        outcome(decimal(v as nat), max, title, noun).0 == 0,
        outcome(decimal(v as nat), max, title, noun).1 == Some(
            warning_range(title, noun, v, max),
        ),
        contains(warning_range(title, noun, v, max), "Warning"@),
        contains(warning_range(title, noun, v, max), "out of range"@),
        contains(warning_range(title, noun, v, max), decimal(v as nat)),
        contains(warning_range(title, noun, v, max), "(0-"@ + decimal(max as nat) + ")"@),
{
    lemma_decimal_reads_back(v as nat);
    lemma_decimal_is_trimmed(v as nat);
    lemma_range_warning_spells(title, noun, v, max);
}

/// Text that is not blank and does not read as an unsigned decimal byte
/// resolves to `0` with a warning that says "Invalid", names the
/// parameter and quotes the trimmed text.
pub proof fn law_malformed_is_replaced(s: Seq<char>, max: u8, title: Seq<char>, noun: Seq<char>)
    requires
        trimmed(s).len() > 0,
        parse_decimal(trimmed(s), 255) is None,
    ensures
        outcome(s, max, title, noun).0 == 0,
        outcome(s, max, title, noun).1 == Some(warning_invalid(noun, trimmed(s))),
        contains(warning_invalid(noun, trimmed(s)), "Warning"@),
        contains(warning_invalid(noun, trimmed(s)), "Invalid "@ + noun),
        contains(warning_invalid(noun, trimmed(s)), trimmed(s)),
{
    lemma_invalid_warning_quotes(noun, trimmed(s));
}

/// Every number from `0` to `127`, spelt in decimal, validates as a data
/// value to itself, with no warning.
pub proof fn law_value_in_range(v: u8)
    requires
        v <= 127,
    ensures
        value_outcome(decimal(v as nat)) == (v, None::<Seq<char>>),
{
    law_in_range_is_kept(v, 127, "Value"@, "value"@);
}

/// Every number from `128` to `255`, spelt in decimal, validates as a
/// data value to `0`, with a warning that contains "out of range" and
/// the spelling of the number.
pub proof fn law_value_above_range(v: u8)
    requires
        v >= 128,
    ensures
        value_outcome(decimal(v as nat)).0 == 0,
        value_outcome(decimal(v as nat)).1 matches Some(w) && contains(w, "out of range"@)
            && contains(w, decimal(v as nat)) && contains(w, "(0-127)"@),
{
    law_above_range_is_replaced(v, 127, "Value"@, "value"@);
    lemma_spelling_of_bounds();
    assert("(0-"@ + decimal(127) + ")"@ =~= "(0-127)"@) by {
        reveal_strlit("(0-");
        reveal_strlit(")");
        reveal_strlit("127");
        reveal_strlit("(0-127)");
    }
}

/// Text that is not blank and does not read as an unsigned decimal byte
/// validates as a data value to `0`, with a warning that contains
/// "Invalid value" and the trimmed text.
pub proof fn law_value_malformed(s: Seq<char>)
    requires
        trimmed(s).len() > 0,
        parse_decimal(trimmed(s), 255) is None,
    ensures
        value_outcome(s).0 == 0,
        value_outcome(s).1 matches Some(w) && contains(w, "Invalid value"@) && contains(
            w,
            trimmed(s),
        ),
{
    law_malformed_is_replaced(s, 127, "Value"@, "value"@);
    assert("Invalid "@ + "value"@ =~= "Invalid value"@) by {
        reveal_strlit("Invalid ");
        reveal_strlit("value");
        reveal_strlit("Invalid value");
    }
}

/// Every number from `0` to `15`, spelt in decimal, validates as a
/// channel to itself, with no warning.
pub proof fn law_channel_in_range(v: u8)
    requires
        v <= 15,
    ensures
        channel_outcome(decimal(v as nat)) == (v, None::<Seq<char>>),
{
    law_in_range_is_kept(v, 15, "Channel"@, "channel"@);
}

/// Every number from `16` to `255`, spelt in decimal, validates as a
/// channel to `0`, with a warning that contains "out of range" and the
/// spelling of the number.
pub proof fn law_channel_above_range(v: u8)
    requires
        v >= 16,
    ensures
        channel_outcome(decimal(v as nat)).0 == 0,
        channel_outcome(decimal(v as nat)).1 matches Some(w) && contains(w, "out of range"@)
            && contains(w, decimal(v as nat)) && contains(w, "(0-15)"@),
{
    law_above_range_is_replaced(v, 15, "Channel"@, "channel"@);
    lemma_spelling_of_bounds();
    assert("(0-"@ + decimal(15) + ")"@ =~= "(0-15)"@) by {
        reveal_strlit("(0-");
        reveal_strlit(")");
        reveal_strlit("15");
        reveal_strlit("(0-15)");
    }
}

/// Text that is not blank and does not read as an unsigned decimal byte
/// validates as a channel to `0`, with a warning that contains
/// "Invalid channel" and the trimmed text.
pub proof fn law_channel_malformed(s: Seq<char>)
    requires
        trimmed(s).len() > 0,
        parse_decimal(trimmed(s), 255) is None,
    ensures
        channel_outcome(s).0 == 0,
        channel_outcome(s).1 matches Some(w) && contains(w, "Invalid channel"@) && contains(
            w,
            trimmed(s),
        ),
{
    law_malformed_is_replaced(s, 15, "Channel"@, "channel"@);
    assert("Invalid "@ + "channel"@ =~= "Invalid channel"@) by {
        reveal_strlit("Invalid ");
        reveal_strlit("channel");
        reveal_strlit("Invalid channel");
    }
}

/// The two bounds as they are spelt.
pub proof fn lemma_spelling_of_bounds()
    ensures
        decimal(127) == "127"@,
        decimal(15) == "15"@,
{
    reveal_strlit("127");
    reveal_strlit("15");
    assert(decimal(1) =~= seq!['1']);
    assert(decimal(12) =~= seq!['1', '2']) by {
        assert(decimal(12) == decimal(1).push(digit_char(2)));
    }
    assert(decimal(127) =~= "127"@) by {
        assert(decimal(127) == decimal(12).push(digit_char(7)));
    }
    assert(decimal(15) =~= "15"@) by {
        assert(decimal(15) == decimal(1).push(digit_char(5)));
    }
}

/// A value and a channel within their ranges encode to three bytes: the
/// status byte with high nibble `0xB` and the channel as low nibble,
/// then `122`, then the value, both below `0x80`.
pub proof fn law_encoding_layout(value: u8, channel: u8)
    requires
        value <= 127,
        channel <= 15,
    ensures
        encoded(value, channel) matches Ok(m) && {
            &&& m == seq![(0xB0 + channel) as u8, 122u8, value]
            &&& is_control_change(m)
            &&& m[0] == 0xB0 | channel
            &&& m[0] & 0x0F == channel
            &&& m[0] >> 4 == 0xB
            &&& m[1] == 122
            &&& m[2] == value
        },
{
    let status: u8 = (0xB0 + channel) as u8;
    assert(status & 0xF0 == 0xB0 && status & 0x80 == 0x80 && status & 0x0F == channel && status >> 4
        == 0xB && status == 0xB0 | channel) by (bit_vector)
        requires
            status == 0xB0u8 + channel,
            channel <= 15u8,
    ;
    assert(value & 0x80 == 0) by (bit_vector)
        requires
            value <= 127u8,
    ;
    assert(122u8 & 0x80 == 0) by (bit_vector);
}

/// A value above `127` is the error reported, whatever the channel; a
/// channel above `15` is reported only beside a value within range.
pub proof fn law_value_is_judged_first(value: u8, channel: u8)
    ensures
        value > 127 ==> encoded(value, channel) == Err::<Seq<u8>, MessageError>(
            MessageError::ValueOutOfRange { value },
        ),
        value <= 127 && channel > 15 ==> encoded(value, channel) == Err::<Seq<u8>, MessageError>(
            MessageError::ChannelOutOfRange { channel },
        ),
        encoded(value, channel) is Ok <==> value <= 127 && channel <= 15,
{
}

/// An encoding error spells the offending number and the range it missed.
pub proof fn law_error_text_names_cause(e: MessageError)
    ensures
        e matches MessageError::ValueOutOfRange { value } ==> contains(
            e.text(),
            "Invalid MIDI value"@,
        ) && contains(e.text(), decimal(value as nat)) && contains(e.text(), "0-127"@),
        e matches MessageError::ChannelOutOfRange { channel } ==> contains(
            e.text(),
            "Invalid MIDI channel"@,
        ) && contains(e.text(), decimal(channel as nat)) && contains(e.text(), "0-15"@),
{
    let (head, key, number, tail, range) = match e {
        MessageError::ValueOutOfRange { value } => (
            "Invalid MIDI value: "@,
            "Invalid MIDI value"@,
            decimal(value as nat),
            ". Must be 0-127."@,
            "0-127"@,
        ),
        MessageError::ChannelOutOfRange { channel } => (
            "Invalid MIDI channel: "@,
            "Invalid MIDI channel"@,
            decimal(channel as nat),
            ". Must be 0-15."@,
            "0-15"@,
        ),
    };
    assert(e.text() == head + number + tail);
    reveal_strlit("Invalid MIDI value: ");
    reveal_strlit("Invalid MIDI value");
    reveal_strlit("Invalid MIDI channel: ");
    reveal_strlit("Invalid MIDI channel");
    assert(head.subrange(0int, 0int + key.len()) =~= key);
    lemma_contains_left(head, number, key);
    lemma_contains_left(head + number, tail, key);

    lemma_contains_self(number);
    lemma_contains_right(head, number, number);
    lemma_contains_left(head + number, tail, number);

    reveal_strlit(". Must be 0-127.");
    reveal_strlit("0-127");
    reveal_strlit(". Must be 0-15.");
    reveal_strlit("0-15");
    assert(tail.subrange(10int, 10int + range.len()) =~= range);
    lemma_contains_right(head + number, tail, range);
}

/// Whatever the two lines of input hold, what validation resolves them
/// to always encodes.
pub proof fn law_validated_input_encodes(value_text: Seq<char>, channel_text: Seq<char>)
    ensures
        encoded(value_outcome(value_text).0, channel_outcome(channel_text).0) is Ok,
{
}

/// The label is "Local Control Off" for `0`, "Local Control On" for
/// `127`, and "Custom Local Control Value" for everything between.
pub proof fn law_labels(value: u8)
    ensures
        value == 0 ==> label(value) == "Local Control Off"@,
        value == 127 ==> label(value) == "Local Control On"@,
        1 <= value <= 126 ==> label(value) == "Custom Local Control Value"@,
{
}

} // verus!
