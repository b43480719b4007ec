//! The Control Change message for controller 122 (Local Control), and the
//! meaning of its data value.

use vstd::prelude::*;
use vstd::string::*;
use crate::text::{decimal, render_decimal};
use crate::validate::{MAX_CHANNEL, MAX_VALUE};

verus! {

/// The status byte of a Control Change message on channel `0`.
pub const CONTROL_CHANGE: u8 = 0xB0;

/// The controller number of Local Control.
pub const LOCAL_CONTROL: u8 = 122;

/// Why a message could not be built.
#[derive(Clone, Copy, Debug, PartialEq, Eq, Structural)]
pub enum MessageError {
    /// The data value lies above `127`.
    ValueOutOfRange { value: u8 },
    /// The channel lies above `15`.
    ChannelOutOfRange { channel: u8 },
}

impl MessageError {
    /// The error in words: the offending number and the range it missed.
    pub open spec fn text(self) -> Seq<char> {
        match self {
            MessageError::ValueOutOfRange { value } => "Invalid MIDI value: "@ + decimal(
                value as nat,
            ) + ". Must be 0-127."@,
            MessageError::ChannelOutOfRange { channel } => "Invalid MIDI channel: "@ + decimal(
                channel as nat,
            ) + ". Must be 0-15."@,
        }
    }

    /// Writes the error in words.
    pub fn message(&self) -> (r: String)
        ensures
            r@ == self.text(),
    {
        match self {
            MessageError::ValueOutOfRange { value } => {
                let number: String = render_decimal(*value as usize);
                let mut r: String = String::from_str("Invalid MIDI value: ");
                r.append(number.as_str());
                r.append(". Must be 0-127.");
                r
            },
            MessageError::ChannelOutOfRange { channel } => {
                let number: String = render_decimal(*channel as usize);
                let mut r: String = String::from_str("Invalid MIDI channel: ");
                r.append(number.as_str());
                r.append(". Must be 0-15.");
                r
            },
        }
    }
}

/// The bytes of the message, or the reason there is none. The value is
/// judged first, so a bad channel is reported only beside a good value.
pub open spec fn encoded(value: u8, channel: u8) -> Result<Seq<u8>, MessageError> {
    if value > MAX_VALUE {
        Err(MessageError::ValueOutOfRange { value })
    } else if channel > MAX_CHANNEL {
        Err(MessageError::ChannelOutOfRange { channel })
    } else {
        Ok(seq![(CONTROL_CHANGE + channel) as u8, LOCAL_CONTROL, value])
    }
}

/// Whether `m` is laid out as a Control Change message on the wire: a
/// status byte with its top bit set and the Control Change nibble, then
/// two data bytes with their top bits clear.
pub open spec fn is_control_change(m: Seq<u8>) -> bool {
    &&& m.len() == 3
    &&& m[0] & 0xF0 == 0xB0
    &&& m[0] & 0x80 == 0x80
    &&& m[1] & 0x80 == 0
    &&& m[2] & 0x80 == 0
}

/// The view of an encoding result.
pub open spec fn bytes_of(r: Result<[u8; 3], MessageError>) -> Result<Seq<u8>, MessageError> {
    match r {
        Ok(m) => Ok(m@),
        Err(e) => Err(e),
    }
}

/// Builds the three bytes `[0xB0 + channel, 122, value]`.
///
/// Fails when `value` exceeds `127`, and otherwise when `channel`
/// exceeds `15`; the bounds are checked here whatever the caller did.
pub fn create_midi_cc_122_message(value: u8, channel: u8) -> (r: Result<[u8; 3], MessageError>)
    ensures
        bytes_of(r) == encoded(value, channel),
        r is Ok <==> value <= 127 && channel <= 15,
        r matches Ok(m) ==> {
            &&& is_control_change(m@)
            &&& m[0] == 0xB0 + channel
            &&& m[0] & 0x0F == channel
            &&& m[0] >> 4 == 0xB
            &&& m[1] == 122
            &&& m[2] == value
        },
{
    if value > MAX_VALUE {
        return Err(MessageError::ValueOutOfRange { value });
    }
    if channel > MAX_CHANNEL {
        return Err(MessageError::ChannelOutOfRange { channel });
    }
    let status: u8 = CONTROL_CHANGE + channel;
    let m: [u8; 3] = [status, LOCAL_CONTROL, value];
    proof {
        assert(m@ =~= seq![status, LOCAL_CONTROL, value]);
        assert(status & 0xF0 == 0xB0 && status & 0x80 == 0x80 && status & 0x0F == channel && status
            >> 4 == 0xB) by (bit_vector)
            requires
                status == 0xB0u8 + channel,
                channel <= 15u8,
        ;
        assert(value & 0x80 == 0) by (bit_vector)
            requires
                value <= 127u8,
        ;
        assert(122u8 & 0x80 == 0) by (bit_vector);
    }
    Ok(m)
}

/// What a data value means for Local Control.
pub open spec fn label(value: u8) -> Seq<char> {
    if value == 0 {
        "Local Control Off"@
    } else if value == 127 {
        "Local Control On"@
    } else {
        "Custom Local Control Value"@
    }
}

/// Names what a data value means for Local Control: off for `0`, on for
/// `127`, a custom value for anything between.
pub fn interpret_local_control_value(value: u8) -> (r: &'static str)
    ensures
        r@ == label(value),
{
    match value {
        0 => "Local Control Off",
        127 => "Local Control On",
        _ => "Custom Local Control Value",
    }
}

/// How a sent value is shown: the label for the two switch positions,
/// the number itself for anything between.
pub open spec fn display(value: u8) -> Seq<char> {
    if value == 0 || value == 127 {
        label(value)
    } else {
        "Local Control Value "@ + decimal(value as nat)
    }
}

/// Writes how a sent value is shown.
pub fn local_control_display(value: u8) -> (r: String)
    ensures
        r@ == display(value),
{
    if value == 0 || value == 127 {
        String::from_str(interpret_local_control_value(value))
    } else {
        let number: String = render_decimal(value as usize);
        let mut r: String = String::from_str("Local Control Value ");
        r.append(number.as_str());
        r
    }
}

} // verus!
