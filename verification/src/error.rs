//! The error taxonomy of the codec. Every decode or construction path returns
//! one of these typed errors; nothing is silently defaulted and nothing
//! panics on malformed input.

use vstd::prelude::*;

use crate::commands::Commands;

verus! {

/// Names the kind of field whose byte failed to map to a defined member of
/// its enumeration.
#[derive(Clone, Copy, Debug, PartialEq, Eq, Structural)]
pub enum FieldKind {
    Command,
    SystemStatus,
    DspStatus,
    DiagnosticMode,
}

/// What can go wrong when a frame, a payload or a packed integer is decoded
/// or constructed.
#[derive(Clone, Copy, Debug, PartialEq, Eq)]
pub enum DeserialiseError {
    /// Fewer than 4 bytes were handed to the frame decoder; the protocol
    /// defines no message that short.
    FrameTooShort,
    /// The checksum computed over the frame disagrees with its trailing byte.
    ChecksumMismatch,
    /// The leading byte of a frame does not name any defined command.
    UnknownCommand { byte: u8 },
    /// A payload slice does not have the exact length its variant requires.
    LengthMismatch { expected: usize, actual: usize },
    /// A byte meant to select an enumeration member matches no defined member.
    InvalidEnumValue { field: FieldKind, byte: u8 },
    /// A packed integer was constructed from a native value outside its
    /// representable range.
    RangeError { value: i64, min: i64, max: i64 },
    /// A payload union value was narrowed to a variant that does not match
    /// its actual tag.
    WrongVariant,
    /// A command was paired with a payload variant that does not admit it;
    /// `allowed` bounds the admissible commands for that variant.
    InvalidCommand { allowed: (Commands, Commands), got: Commands },
}

} // verus!
