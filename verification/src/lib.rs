//! Validation of user-supplied MIDI parameters and encoding of the
//! Control Change message for controller 122 (Local Control).
//!
//! Every function here is pure: text and integers in, text, integers and
//! bytes out. Contracts are stated over `Seq<char>` views of strings.

pub mod laws;
pub mod message;
pub mod port;
pub mod text;
pub mod validate;

pub use message::{
    create_midi_cc_122_message, interpret_local_control_value, local_control_display, MessageError,
};
pub use port::{select_port, PortError};
pub use validate::{classify, validate_midi_channel, validate_midi_value, Reading};
