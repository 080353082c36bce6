//! Content types, their codes on the wire and their size limits.

use crate::error::SBMPError;
use vstd::prelude::*;
use vstd::std_specs::convert::TryFromSpecImpl;

verus! {

/// The one protocol version that is spoken and accepted.
pub const PROTOCOL_VERSION: u8 = 1;

/// Largest payload of a text frame, in bytes: 4 KiB.
pub const MAX_UTF8_LEN: u32 = 4096;

/// Largest payload of a binary frame, in bytes: 4 MiB.
pub const MAX_BINARY_LEN: u32 = 4194304;

/// What a frame's payload holds.
#[derive(Clone, Copy, Debug, PartialEq, Eq, Structural)]
pub enum ContentType {
    /// Text, encoded as UTF-8. Code 0.
    UTF8,
    /// Any bytes. Code 1.
    Binary,
}

impl ContentType {
    /// The byte that stands for this content type on the wire.
    pub open spec fn spec_code(self) -> u8 {
        match self {
            ContentType::UTF8 => 0,
            ContentType::Binary => 1,
        }
    }

    /// The largest payload, in bytes, that a frame of this content type may carry.
    pub open spec fn spec_max_len(self) -> u32 {
        match self {
            ContentType::UTF8 => MAX_UTF8_LEN,
            ContentType::Binary => MAX_BINARY_LEN,
        }
    }

    /// The byte that stands for this content type on the wire.
    #[verifier::when_used_as_spec(spec_code)]
    pub fn code(self) -> (code: u8)
        ensures
            code == self.spec_code(),
    {
        match self {
            ContentType::UTF8 => 0,
            ContentType::Binary => 1,
        }
    }

    /// The largest payload, in bytes, that a frame of this content type may
    /// carry.
    #[verifier::when_used_as_spec(spec_max_len)]
    pub fn max_len(self) -> (max: u32)
        ensures
            max == self.spec_max_len(),
    {
        match self {
            ContentType::UTF8 => MAX_UTF8_LEN,
            ContentType::Binary => MAX_BINARY_LEN,
        }
    }
}

/// The content type that a wire byte stands for, or the error that reports the byte.
pub open spec fn content_type_of(code: u8) -> Result<ContentType, SBMPError> {
    if code == 0 {
        Ok(ContentType::UTF8)
    } else if code == 1 {
        Ok(ContentType::Binary)
    } else {
        Err(SBMPError::UknownContentType(code))
    }
}

impl TryFrom<u8> for ContentType {
    type Error = SBMPError;

    /// The content type that a wire byte stands for; any byte but 0 and 1 is
    /// reported as unknown.
    fn try_from(content_type: u8) -> (res: Result<Self, Self::Error>) {
        match content_type {
            0 => Ok(ContentType::UTF8),
            1 => Ok(ContentType::Binary),
            _ => Err(SBMPError::UknownContentType(content_type)),
        }
    }
}

impl TryFromSpecImpl<u8> for ContentType {
    open spec fn obeys_try_from_spec() -> bool {
        true
    }

    open spec fn try_from_spec(v: u8) -> Result<Self, Self::Error> {
        content_type_of(v)
    }
}

/// Every content type is found again from its code, and no other byte names one.
pub proof fn lemma_code_round_trip(content_type: ContentType, code: u8)
    ensures
        content_type_of(content_type.spec_code()) == Ok::<ContentType, SBMPError>(content_type),
        content_type_of(code) is Ok <==> code == 0 || code == 1,
        content_type_of(code) matches Ok(t) ==> t.spec_code() == code,
        content_type_of(code) matches Err(e) ==> e == SBMPError::UknownContentType(code),
{
}

} // verus!
