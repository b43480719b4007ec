//! Choosing one of the output ports by the number the user typed.

use vstd::prelude::*;
use vstd::string::*;
use crate::text::{chars_of, decimal, parse_decimal, parse_digits, render_decimal, trim_bounds, trimmed};

verus! {

/// Why no port was chosen.
#[derive(Clone, Copy, Debug, PartialEq, Eq, Structural)]
pub enum PortError {
    /// There is no port to choose from.
    NoPorts,
    /// The input is no index: not an unsigned decimal number.
    NotANumber,
    /// The index names no port; `last` is the highest index that does.
    NoSuchPort { index: usize, last: usize },
}

impl PortError {
    /// The error in words.
    pub open spec fn text(self) -> Seq<char> {
        match self {
            PortError::NoPorts => "No MIDI output ports available."@,
            PortError::NotANumber => "Invalid input: Please enter a valid number"@,
            PortError::NoSuchPort { index, last } => "Invalid port selection: Port "@ + decimal(
                index as nat,
            ) + " does not exist. Available ports: 0-"@ + decimal(last as nat),
        }
    }

    /// Writes the error in words.
    pub fn message(&self) -> (r: String)
        ensures
            r@ == self.text(),
    {
        match self {
            PortError::NoPorts => String::from_str("No MIDI output ports available."),
            PortError::NotANumber => String::from_str("Invalid input: Please enter a valid number"),
            PortError::NoSuchPort { index, last } => {
                let index_text: String = render_decimal(*index);
                let last_text: String = render_decimal(*last);
                let mut r: String = String::from_str("Invalid port selection: Port ");
                r.append(index_text.as_str());
                r.append(" does not exist. Available ports: 0-");
                r.append(last_text.as_str());
                r
            },
        }
    }
}

/// The digits of an index: the text itself, less one leading `+`.
pub open spec fn unsigned_part(s: Seq<char>) -> Seq<char> {
    if s.len() > 0 && s[0] == '+' {
        s.drop_first()
    } else {
        s
    }
}

/// The port that `s` selects among `count` ports. The text is trimmed
/// and read as a decimal index that fits a machine word; an index at or
/// above `count` names no port.
pub open spec fn selection(s: Seq<char>, count: usize) -> Result<usize, PortError> {
    if count == 0 {
        Err(PortError::NoPorts)
    } else {
        match parse_decimal(unsigned_part(trimmed(s)), usize::MAX as nat) {
            None => Err(PortError::NotANumber),
            Some(n) => if n >= count {
                Err(PortError::NoSuchPort { index: n as usize, last: (count - 1) as usize })
            } else {
                Ok(n as usize)
            },
        }
    }
}

/// Chooses among `count` ports by the line the user typed.
pub fn select_port(input: &str, count: usize) -> (r: Result<usize, PortError>)
    ensures
        r == selection(input@, count),
        r matches Ok(i) ==> i < count,
{
    if count == 0 {
        return Err(PortError::NoPorts);
    }
    let chars: Vec<char> = chars_of(input);
    let (lo, hi) = trim_bounds(&chars);
    let ghost t = chars@.subrange(lo as int, hi as int);
    let start: usize = if lo < hi && chars[lo] == '+' {
        lo + 1
    } else {
        lo
    };
    proof {
        assert(chars@.subrange(start as int, hi as int) =~= unsigned_part(t));
    }
    match parse_digits(&chars, start, hi, usize::MAX) {
        None => Err(PortError::NotANumber),
        Some(n) => {
            if n >= count {
                Err(PortError::NoSuchPort { index: n, last: count - 1 })
            } else {
                Ok(n)
            }
        },
    }
}

} // verus!
