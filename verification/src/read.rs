//! From bytes to frames.

use crate::content::content_type_of;
use crate::content::ContentType;
use crate::content::MAX_BINARY_LEN;
use crate::content::PROTOCOL_VERSION;
use crate::error::IoFailure;
use crate::error::SBMPError;
use crate::frame::frame_result_view;
use crate::frame::Frame;
use crate::frame::FrameView;
use crate::header::header_result_view;
use crate::header::Header;
use crate::wire::declared_len;
use crate::wire::decode;
use crate::wire::be_bytes;
use crate::wire::encode;
use crate::wire::lemma_be_round_trip;
use crate::wire::decode_header;
use crate::wire::frame_len;
use crate::wire::u32_from_be_bytes;
use crate::wire::unexpected_eof;
use crate::wire::HEADER_LEN;
use vstd::prelude::*;

verus! {

/// How many more bytes a reader must be given before it can say what the
/// front of its stream is: one byte for the version, one for the content
/// type, four for the length, then the payload. Zero once the frame is
/// complete, and zero as soon as a field is wrong.
pub open spec fn bytes_wanted(stream: Seq<u8>) -> nat {
    if stream.len() < 1 {
        1
    } else if stream[0] != PROTOCOL_VERSION {
        0
    } else if stream.len() < 2 {
        1
    } else if content_type_of(stream[1]) is Err {
        0
    } else if stream.len() < HEADER_LEN {
        (HEADER_LEN - stream.len()) as nat
    } else if declared_len(stream) > content_type_of(stream[1])->Ok_0.spec_max_len() {
        0
    } else if stream.len() < HEADER_LEN + declared_len(stream) {
        (HEADER_LEN + declared_len(stream) - stream.len()) as nat
    } else {
        0
    }
}

/// Reads frames off the front of a stream of bytes held in memory.
///
/// Bytes may be appended while frames are read, so a transport can feed the
/// reader as they arrive: [`FrameReader::wanted`] tells how many to fetch
/// next.
pub struct FrameReader {
    reader: Vec<u8>,
}

impl View for FrameReader {
    type V = Seq<u8>;

    /// The bytes that have not been read yet.
    closed spec fn view(&self) -> Seq<u8> {
        self.reader@
    }
}

impl FrameReader {
    /// A reader in front of the given bytes.
    pub fn new(stream: Vec<u8>) -> (reader: Self)
        ensures
            reader@ == stream@,
    {
        Self { reader: stream }
    }

    /// Appends bytes that have arrived to the end of the stream.
    pub fn push(&mut self, bytes: &[u8])
        ensures
            final(self)@ == old(self)@ + bytes@,
    {
        self.reader.extend_from_slice(bytes);
        assert(self.reader@ =~= old(self).reader@ + bytes@);
    }

    /// How many bytes to append before [`FrameReader::read_frame`] can give
    /// anything but an unexpected end of file.
    pub fn wanted(&self) -> (n: usize)
        ensures
            n == bytes_wanted(self@),
    {
        let have = self.reader.len();
        match self.read_header() {
            Ok(header) => {
                if have - HEADER_LEN < header.content_len() {
                    header.content_len() - (have - HEADER_LEN)
                } else {
                    0
                }
            },
            Err(SBMPError::IO(_)) => {
                if have < 2 {
                    1
                } else {
                    HEADER_LEN - have
                }
            },
            Err(_) => 0,
        }
    }

    /// Reads one frame off the front of the stream.
    ///
    /// On success exactly the bytes of that frame are taken. On an error the
    /// stream is left as it was: a malformed frame is reported again by every
    /// later call, and nothing is skipped in search of a next frame.
    pub fn read_frame(&mut self) -> (res: Result<Frame, SBMPError>)
        ensures
            frame_result_view(res) == decode(old(self)@),
            res is Ok ==> final(self)@ == old(self)@.skip(frame_len(old(self)@) as int),
            res is Err ==> final(self)@ == old(self)@,
    {
        let header = match self.read_header() {
            Ok(header) => header,
            Err(e) => {
                return Err(e);
            },
        };
        let content_len = header.content_len();
        if self.reader.len() - HEADER_LEN < content_len {
            return Err(SBMPError::IO(IoFailure::UnexpectedEof));
        }
        let rest = self.reader.split_off(HEADER_LEN + content_len);
        let payload = self.reader.split_off(HEADER_LEN);
        self.reader = rest;
        assert(self.reader@ =~= old(self)@.skip(frame_len(old(self)@) as int));
        assert(payload@ =~= old(self)@.subrange(
            HEADER_LEN as int,
            HEADER_LEN + declared_len(old(self)@),
        ));
        Frame::try_new(header, payload)
    }

    fn read_header(&self) -> (res: Result<Header, SBMPError>)
        ensures
            header_result_view(res) == decode_header(self@),
    {
        let have = self.reader.len();
        // version, 1 byte
        if have < 1 {
            return Err(SBMPError::IO(IoFailure::UnexpectedEof));
        }
        if self.reader[0] != PROTOCOL_VERSION {
            return Err(SBMPError::WrongVersion);
        }
        // content-type, 1 byte
        if have < 2 {
            return Err(SBMPError::IO(IoFailure::UnexpectedEof));
        }
        if let Err(e) = ContentType::try_from(self.reader[1]) {
            return Err(e);
        }
        // content-length, 4 bytes
        if have < HEADER_LEN {
            return Err(SBMPError::IO(IoFailure::UnexpectedEof));
        }
        let content_length = u32_from_be_bytes(
            [self.reader[2], self.reader[3], self.reader[4], self.reader[5]],
        );
        assert(self.reader@.subrange(2, 6) =~= seq![
            self.reader@[2],
            self.reader@[3],
            self.reader@[4],
            self.reader@[5],
        ]);
        Header::validate(self.reader[0], self.reader[1], content_length)
    }
}

/// A reader wants no more bytes exactly when the front of its stream can be
/// judged: it holds a whole frame, or a field that is wrong. It never asks
/// for more than the largest frame takes.
pub proof fn lemma_wanted_decides(stream: Seq<u8>)
    ensures
        bytes_wanted(stream) == 0 <==> decode(stream) != Err::<FrameView, SBMPError>(unexpected_eof()),
        bytes_wanted(stream) > 0 ==> stream.len() + bytes_wanted(stream) <= HEADER_LEN + MAX_BINARY_LEN,
{
}

/// Once the front of a stream can be judged, nothing that arrives later
/// changes the judgement: a frame is read from its own bytes alone.
pub proof fn lemma_decided_for_good(stream: Seq<u8>, more: Seq<u8>)
    requires
        bytes_wanted(stream) == 0,
    ensures
        bytes_wanted(stream + more) == 0,
        decode(stream + more) == decode(stream),
{
    let longer = stream + more;
    if stream.len() >= HEADER_LEN {
        assert(longer.subrange(2, 6) =~= stream.subrange(2, 6));
        if decode(stream) is Ok {
            assert(longer.subrange(HEADER_LEN as int, HEADER_LEN + declared_len(stream))
                =~= stream.subrange(HEADER_LEN as int, HEADER_LEN + declared_len(stream)));
        }
    }
}

/// A reader that is fed what it asks for never takes a byte of the frame
/// after: while a frame is on its way, the reader wants more, and no more
/// than what is left of that frame.
pub proof fn lemma_never_reads_ahead(frame: FrameView, arrived: int)
    requires
        frame.valid(),
        0 <= arrived < encode(frame).len(),
    ensures
        bytes_wanted(encode(frame).take(arrived)) > 0,
        arrived + bytes_wanted(encode(frame).take(arrived)) <= encode(frame).len(),
{
    let whole = encode(frame);
    let part = whole.take(arrived);
    lemma_be_round_trip(frame.header.content_length as u32, Seq::empty());
    assert(whole.subrange(2, 6) =~= be_bytes(frame.header.content_length as u32));
    if arrived >= HEADER_LEN {
        assert(part.subrange(2, 6) =~= whole.subrange(2, 6));
    }
}

} // verus!
