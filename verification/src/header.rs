//! The header of a frame: version, content type and length, validated.

use crate::content::content_type_of;
use crate::content::ContentType;
use crate::content::PROTOCOL_VERSION;
use crate::error::SBMPError;
use vstd::prelude::*;

verus! {

/// What a header says, as plain mathematical values.
pub struct HeaderView {
    pub version: u8,
    pub content_type: ContentType,
    pub content_length: nat,
}

impl HeaderView {
    /// A header is valid when it carries the supported version and declares no
    /// more bytes than its content type allows.
    pub open spec fn valid(self) -> bool {
        &&& self.version == PROTOCOL_VERSION
        &&& self.content_length <= self.content_type.spec_max_len()
    }
}

/// The metadata in front of every payload. A value of this type is always
/// valid: it can only be made by [`Header::try_new`] and [`Header::validate`].
#[derive(Clone, Copy, Debug, PartialEq, Eq)]
pub struct Header {
    version: u8,
    content_type: ContentType,
    content_length: usize,
}

impl View for Header {
    type V = HeaderView;

    closed spec fn view(&self) -> HeaderView {
        HeaderView {
            version: self.version,
            content_type: self.content_type,
            content_length: self.content_length as nat,
        }
    }
}

/// The header that three wire values make, or the reason why they make none.
/// The version is judged first, then the length against the content type's
/// maximum, then whether the length can be addressed on this machine.
pub open spec fn checked_header(version: u8, content_type: ContentType, content_length: u32) -> Result<
    HeaderView,
    SBMPError,
> {
    if version != PROTOCOL_VERSION {
        Err(SBMPError::WrongVersion)
    } else if content_length > content_type.spec_max_len() {
        Err(SBMPError::LargeFrame)
    } else if content_length > usize::MAX {
        Err(SBMPError::LengthConversion)
    } else {
        Ok(HeaderView { version, content_type, content_length: content_length as nat })
    }
}

/// The header that the first six bytes of a frame make, once the length is
/// read as a number: the version is judged first, then the content-type
/// code, then the length.
pub open spec fn validated(version: u8, code: u8, content_length: u32) -> Result<HeaderView, SBMPError> {
    if version != PROTOCOL_VERSION {
        Err(SBMPError::WrongVersion)
    } else {
        match content_type_of(code) {
            Ok(content_type) => checked_header(version, content_type, content_length),
            Err(e) => Err(e),
        }
    }
}

/// A result with the header, if there is one, replaced by its view.
pub open spec fn header_result_view(res: Result<Header, SBMPError>) -> Result<HeaderView, SBMPError> {
    match res {
        Ok(header) => Ok(header@),
        Err(e) => Err(e),
    }
}

impl Header {
    #[verifier::type_invariant]
    pub open spec fn well_formed(self) -> bool {
        self@.valid()
    }

    fn new(version: u8, content_type: ContentType, content_length: usize) -> (header: Self)
        requires
            version == PROTOCOL_VERSION,
            content_length <= content_type.spec_max_len(),
        ensures
            header@ == (HeaderView { version, content_type, content_length: content_length as nat }),
    {
        Self { version, content_type, content_length }
    }

    /// Validates three wire values and makes the header of them.
    pub fn try_new(version: u8, content_type: ContentType, content_length: u32) -> (res: Result<
        Self,
        SBMPError,
    >)
        ensures
            header_result_view(res) == checked_header(version, content_type, content_length),
    {
        if version != PROTOCOL_VERSION {
            return Err(SBMPError::WrongVersion);
        }
        if content_length > content_type.max_len() {
            return Err(SBMPError::LargeFrame);
        }
        let content_length = match usize::try_from(content_length) {
            Ok(n) => n,
            Err(_) => {
                return Err(SBMPError::LengthConversion);
            },
        };
        Ok(Header::new(version, content_type, content_length))
    }

    /// Validates the version, the content-type code and the length as they
    /// come off the wire, and makes the header of them.
    pub fn validate(version: u8, code: u8, content_length: u32) -> (res: Result<Self, SBMPError>)
        ensures
            header_result_view(res) == validated(version, code, content_length),
    {
        if version != PROTOCOL_VERSION {
            return Err(SBMPError::WrongVersion);
        }
        match ContentType::try_from(code) {
            Ok(content_type) => Header::try_new(version, content_type, content_length),
            Err(e) => Err(e),
        }
    }

    /// What the payload holds.
    pub fn content_type(&self) -> (content_type: &ContentType)
        ensures
            *content_type == self@.content_type,
    {
        &self.content_type
    }

    /// How many bytes of payload follow the header.
    pub fn content_len(&self) -> (len: usize)
        ensures
            len == self@.content_length,
            self@.valid(),
    {
        proof {
            use_type_invariant(self);
        }
        self.content_length
    }

    /// The protocol version, which is always the supported one.
    pub fn version(&self) -> (version: u8)
        ensures
            version == self@.version,
            version == PROTOCOL_VERSION,
    {
        proof {
            use_type_invariant(self);
        }
        self.version
    }
}

/// A length within a content type's maximum is accepted with the supported
/// version, and the first length past the maximum is refused as too large.
pub proof fn lemma_length_bound(content_type: ContentType, content_length: u32)
    ensures
        content_length <= content_type.spec_max_len() ==> checked_header(
            PROTOCOL_VERSION,
            content_type,
            content_length,
        ) == Ok::<HeaderView, SBMPError>(
            HeaderView { version: PROTOCOL_VERSION, content_type, content_length: content_length as nat },
        ),
        content_length > content_type.spec_max_len() ==> checked_header(
            PROTOCOL_VERSION,
            content_type,
            content_length,
        ) == Err::<HeaderView, SBMPError>(SBMPError::LargeFrame),
{
}

/// No header is made with a version other than the supported one, however
/// well formed the content type and the length are.
pub proof fn lemma_version_rejected(version: u8, content_type: ContentType, code: u8, content_length: u32)
    requires
        version != PROTOCOL_VERSION,
    ensures
        checked_header(version, content_type, content_length) == Err::<HeaderView, SBMPError>(
            SBMPError::WrongVersion,
        ),
        validated(version, code, content_length) == Err::<HeaderView, SBMPError>(
            SBMPError::WrongVersion,
        ),
{
}

/// With the supported version, a byte that is no content-type code makes no
/// header, whatever the length, and the error reports the byte.
pub proof fn lemma_unknown_code_rejected(code: u8, content_length: u32)
    requires
        code != 0,
        code != 1,
    ensures
        validated(PROTOCOL_VERSION, code, content_length) == Err::<HeaderView, SBMPError>(
            SBMPError::UknownContentType(code),
        ),
{
}

} // verus!
