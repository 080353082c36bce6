//! A frame: a header and the payload it announces.

use crate::error::SBMPError;
use crate::header::Header;
use crate::header::HeaderView;
use vstd::prelude::*;

verus! {

/// What a frame holds, as plain mathematical values.
pub struct FrameView {
    pub header: HeaderView,
    pub payload: Seq<u8>,
}

impl FrameView {
    /// A frame is valid when its header is and the payload is exactly as long
    /// as the header declares.
    pub open spec fn valid(self) -> bool {
        &&& self.header.valid()
        &&& self.payload.len() == self.header.content_length
    }
}

/// One complete message: a header and the payload it announces. A value of
/// this type is always valid: it can only be made by [`Frame::try_new`].
#[derive(Debug, PartialEq, Eq)]
pub struct Frame {
    header: Header,
    payload: Vec<u8>,
}

impl View for Frame {
    type V = FrameView;

    closed spec fn view(&self) -> FrameView {
        FrameView { header: self.header@, payload: self.payload@ }
    }
}

/// The frame that a header and a payload make, if the payload is as long
/// as the header declares.
pub open spec fn joined(header: HeaderView, payload: Seq<u8>) -> Result<FrameView, SBMPError> {
    if payload.len() == header.content_length {
        Ok(FrameView { header, payload })
    } else {
        Err(SBMPError::ContentLenDiff)
    }
}

/// A result with the frame, if there is one, replaced by its view.
pub open spec fn frame_result_view(res: Result<Frame, SBMPError>) -> Result<FrameView, SBMPError> {
    match res {
        Ok(frame) => Ok(frame@),
        Err(e) => Err(e),
    }
}

impl Clone for Frame {
    fn clone(&self) -> (frame: Self)
        ensures
            frame@ == self@,
    {
        proof {
            use_type_invariant(self);
        }
        Frame { header: self.header, payload: self.payload.clone() }
    }
}

impl Frame {
    #[verifier::type_invariant]
    pub open spec fn well_formed(self) -> bool {
        self@.payload.len() == self@.header.content_length
    }

    fn new(header: Header, payload: Vec<u8>) -> (frame: Self)
        requires
            payload@.len() == header@.content_length,
        ensures
            frame@ == (FrameView { header: header@, payload: payload@ }),
    {
        Self { header, payload }
    }

    /// Joins a header and a payload, if the payload has the declared length.
    pub fn try_new(header: Header, payload: Vec<u8>) -> (res: Result<Self, SBMPError>)
        ensures
            frame_result_view(res) == joined(header@, payload@),
    {
        if header.content_len() == payload.len() {
            Ok(Frame::new(header, payload))
        } else {
            Err(SBMPError::ContentLenDiff)
        }
    }

    /// The header and the payload, borrowed.
    pub fn get(&self) -> (parts: (&Header, &Vec<u8>))
        ensures
            parts.0@ == self@.header,
            parts.1@ == self@.payload,
            self@.valid(),
    {
        proof {
            use_type_invariant(self);
            use_type_invariant(&self.header);
        }
        (&self.header, &self.payload)
    }

    /// The payload alone, by value.
    pub fn get_payload(self) -> (payload: Vec<u8>)
        ensures
            payload@ == self@.payload,
            payload@.len() == self@.header.content_length,
            self@.valid(),
    {
        proof {
            use_type_invariant(&self);
            use_type_invariant(&self.header);
        }
        self.payload
    }
}

} // verus!
