//! The errors of the protocol.

use vstd::prelude::*;

verus! {

/// How a byte stream let its reader down.
#[derive(Clone, Copy, Debug, PartialEq, Eq, Structural)]
pub enum IoFailure {
    /// The stream ended before the bytes that were asked for had arrived.
    UnexpectedEof,
    /// The peer stayed silent, or did not take our bytes, for too long.
    TimedOut,
    /// The peer closed or reset the connection.
    ConnectionReset,
    /// Any other failure of the transport.
    Other,
}

/// Everything that can go wrong with a frame.
#[derive(Clone, Copy, Debug, PartialEq, Eq, Structural)]
pub enum SBMPError {
    /// The payload is not as long as the header says.
    ContentLenDiff,
    /// A length does not fit the integer type it has to be carried in.
    LengthConversion,
    /// The content-type byte is none of the known codes; the byte is reported.
    UknownContentType(u8),
    /// The version byte is not the version this crate speaks.
    WrongVersion,
    /// The declared length is above what the content type allows.
    LargeFrame,
    /// The byte stream failed.
    IO(IoFailure),
}

} // verus!
