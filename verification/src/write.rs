//! From frames to bytes.

use crate::content::ContentType;
use crate::content::PROTOCOL_VERSION;
use crate::error::SBMPError;
use crate::frame::frame_result_view;
use crate::frame::Frame;
use crate::frame::FrameView;
use crate::header::Header;
use crate::header::HeaderView;
use crate::wire::encode;
use crate::wire::u32_to_be_bytes;
use vstd::prelude::*;
use vstd::slice::slice_to_vec;
use vstd::string::StringSliceAdditionalSpecFns;
use vstd::utf8::encode_utf8;

verus! {

/// The frame that a payload of a given content type is sent in, or the reason
/// why it cannot be sent: it is longer than the content type allows, or than
/// a 32-bit length can say.
pub open spec fn built_frame(content_type: ContentType, payload: Seq<u8>) -> Result<FrameView, SBMPError> {
    if payload.len() > u32::MAX {
        Err(SBMPError::LengthConversion)
    } else if payload.len() > content_type.spec_max_len() {
        Err(SBMPError::LargeFrame)
    } else {
        Ok(
            FrameView {
                header: HeaderView {
                    version: PROTOCOL_VERSION,
                    content_type,
                    content_length: payload.len(),
                },
                payload,
            },
        )
    }
}

/// Wraps a payload in a frame of the supported version.
pub fn build_frame(content_type: ContentType, payload: &[u8]) -> (res: Result<Frame, SBMPError>)
    ensures
        frame_result_view(res) == built_frame(content_type, payload@),
{
    let content_length = match u32::try_from(payload.len()) {
        Ok(n) => n,
        Err(_) => {
            return Err(SBMPError::LengthConversion);
        },
    };
    let header = match Header::try_new(PROTOCOL_VERSION, content_type, content_length) {
        Ok(header) => header,
        Err(e) => {
            return Err(e);
        },
    };
    Frame::try_new(header, slice_to_vec(payload))
}

/// The bytes that carry a text as one frame of content type UTF8, or the
/// reason why no frame can carry it.
pub open spec fn encoded_text(text: Seq<char>) -> Result<Seq<u8>, SBMPError> {
    match built_frame(ContentType::UTF8, encode_utf8(text)) {
        Ok(frame) => Ok(encode(frame)),
        Err(e) => Err(e),
    }
}

/// A result with the bytes, if there are any, replaced by their view.
pub open spec fn bytes_result_view(res: Result<Vec<u8>, SBMPError>) -> Result<Seq<u8>, SBMPError> {
    match res {
        Ok(bytes) => Ok(bytes@),
        Err(e) => Err(e),
    }
}

/// Frames a text as UTF-8 and gives the bytes to put on the wire.
pub fn encode_text(text: &str) -> (res: Result<Vec<u8>, SBMPError>)
    ensures
        bytes_result_view(res) == encoded_text(text@),
{
    match build_frame(ContentType::UTF8, text.as_bytes()) {
        Ok(frame) => Ok(encode_frame(&frame)),
        Err(e) => Err(e),
    }
}

/// The bytes of a frame as they go on the wire.
pub fn encode_frame(frame: &Frame) -> (bytes: Vec<u8>)
    ensures
        bytes@ == encode(frame@),
{
    let (header, payload) = frame.get();
    let length = u32_to_be_bytes(header.content_len() as u32);
    let mut bytes: Vec<u8> = Vec::with_capacity(payload.len() + 6);
    bytes.push(header.version());
    bytes.push(header.content_type().code());
    bytes.push(length[0]);
    bytes.push(length[1]);
    bytes.push(length[2]);
    bytes.push(length[3]);
    bytes.extend_from_slice(payload.as_slice());
    assert(bytes@ =~= encode(frame@));
    bytes
}

/// The bytes that carry a text which is known to fit a frame.
pub(crate) fn framed_text(text: &str) -> (bytes: Vec<u8>)
    requires
        encoded_text(text@) is Ok,
    ensures
        Ok::<Seq<u8>, SBMPError>(bytes@) == encoded_text(text@),
{
    match encode_text(text) {
        Ok(bytes) => bytes,
        Err(_) => Vec::new(),
    }
}

/// Collects the bytes of the frames written to it, in the order of writing.
pub struct FrameWriter {
    writer: Vec<u8>,
}

impl View for FrameWriter {
    type V = Seq<u8>;

    /// The bytes written and not yet taken.
    closed spec fn view(&self) -> Seq<u8> {
        self.writer@
    }
}

impl FrameWriter {
    /// A writer that appends to the bytes it is given.
    pub fn new(stream: Vec<u8>) -> (writer: Self)
        ensures
            writer@ == stream@,
    {
        Self { writer: stream }
    }

    /// Appends one frame: its header, then its payload.
    pub fn write_frame(&mut self, frame: Frame)
        ensures
            final(self)@ == old(self)@ + encode(frame@),
    {
        let mut bytes = encode_frame(&frame);
        self.writer.append(&mut bytes);
    }

    /// The bytes written so far.
    pub fn get_ref(&self) -> (bytes: &Vec<u8>)
        ensures
            bytes@ == self@,
    {
        &self.writer
    }

    /// Hands out the bytes written so far and starts again with none.
    pub fn take(&mut self) -> (bytes: Vec<u8>)
        ensures
            bytes@ == old(self)@,
            final(self)@ == Seq::<u8>::empty(),
    {
        let mut bytes: Vec<u8> = Vec::new();
        bytes.append(&mut self.writer);
        bytes
    }
}

} // verus!
