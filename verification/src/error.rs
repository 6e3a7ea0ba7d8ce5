//! The failures that one command round trip can end in.

use vstd::prelude::*;

verus! {

/// A violation of the CTAPHID framing rules. It ends the command in flight;
/// the caller may start over with a fresh channel.
#[derive(Debug, Clone, Copy, PartialEq, Eq, Structural)]
pub enum FramingError {
    /// A report does not have the fixed report size.
    ReportSize,
    /// A report belongs to another channel than the one in use.
    ChannelMismatch,
    /// A continuation report is out of order, or an initialization report
    /// arrived where a continuation was due (or the reverse).
    SequenceMismatch,
    /// The declared length cannot be met by what was or can be received.
    LengthMismatch,
    /// The reply to the channel request does not echo the nonce sent.
    NonceMismatch,
    /// The payload does not fit into one message.
    PayloadTooLong,
    /// The command byte lacks the bit that marks an initialization report.
    InvalidCommand,
}

/// A response that cannot be decoded into the record asked for.
#[derive(Debug, Clone, Copy, PartialEq, Eq, Structural)]
pub enum DecodeError {
    /// The response is empty: it lacks even the status byte.
    Empty,
    /// The bytes are not one well-formed CBOR item.
    InvalidCbor,
    /// The item is not a map.
    NotAMap,
    /// A recognized key holds a value of another kind than expected, or a
    /// number that does not fit the field.
    TypeMismatch,
    /// The authenticator data is shorter than its fixed layout.
    Truncated,
}

/// Why a command failed.
#[derive(Debug, Clone, Copy, PartialEq, Eq, Structural)]
pub enum CtapError {
    /// The device could not be reached, or a read or write failed.
    Transport,
    /// The framing rules were violated.
    Framing(FramingError),
    /// The authenticator answered with an error status; the code is its own.
    Protocol(u8),
    /// The response could not be decoded.
    Decode(DecodeError),
}

} // verus!
