//! The wire format as mathematics: which bytes a frame becomes, and which
//! frame, or which error, a run of bytes is read as.

use crate::content::content_type_of;
use crate::content::PROTOCOL_VERSION;
use crate::error::IoFailure;
use crate::error::SBMPError;
use crate::frame::FrameView;
use crate::header::validated;
use crate::header::HeaderView;
use vstd::prelude::*;

verus! {

/// Bytes in front of every payload: version, content type, four bytes of length.
pub const HEADER_LEN: usize = 6;

/// The four bytes of a 32-bit length, most significant first.
pub open spec fn be_bytes(n: u32) -> Seq<u8> {
    seq![
        (n / 0x100_0000) as u8,
        (n / 0x1_0000 % 0x100) as u8,
        (n / 0x100 % 0x100) as u8,
        (n % 0x100) as u8,
    ]
}

/// The number that four bytes spell, most significant first.
pub open spec fn be_value(bytes: Seq<u8>) -> nat
    recommends
        bytes.len() == 4,
{
    (bytes[0] * 0x100_0000 + bytes[1] * 0x1_0000 + bytes[2] * 0x100 + bytes[3]) as nat
}

/// Splits a 32-bit length into its four bytes, most significant first.
pub fn u32_to_be_bytes(n: u32) -> (bytes: [u8; 4])
    ensures
        bytes@ == be_bytes(n),
{
    let bytes: [u8; 4] = [
        (n / 0x100_0000) as u8,
        (n / 0x1_0000 % 0x100) as u8,
        (n / 0x100 % 0x100) as u8,
        (n % 0x100) as u8,
    ];
    assert(bytes@ =~= be_bytes(n));
    bytes
}

/// Joins four bytes, most significant first, into the 32-bit length they spell.
pub fn u32_from_be_bytes(bytes: [u8; 4]) -> (n: u32)
    ensures
        n == be_value(bytes@),
{
    (bytes[0] as u32) * 0x100_0000 + (bytes[1] as u32) * 0x1_0000 + (bytes[2] as u32) * 0x100 + (
    bytes[3] as u32)
}

proof fn lemma_split_u32(n: u32)
    by (bit_vector)
    ensures
        n / 0x100_0000 < 0x100,
        (n / 0x100_0000) * 0x100_0000 + (n / 0x1_0000 % 0x100) * 0x1_0000 + (n / 0x100 % 0x100)
            * 0x100 + n % 0x100 == n,
{
}

proof fn lemma_join_u8(b0: u8, b1: u8, b2: u8, b3: u8)
    by (bit_vector)
    ensures
        ({
            let n = (b0 as u32) * 0x100_0000 + (b1 as u32) * 0x1_0000 + (b2 as u32) * 0x100 + (
            b3 as u32);
            &&& n <= 0xffff_ffff
            &&& n / 0x100_0000 == b0
            &&& n / 0x1_0000 % 0x100 == b1
            &&& n / 0x100 % 0x100 == b2
            &&& n % 0x100 == b3
        }),
{
}

/// Splitting a length into bytes and joining them again loses nothing, in
/// either direction.
pub proof fn lemma_be_round_trip(n: u32, bytes: Seq<u8>)
    ensures
        be_bytes(n).len() == 4,
        be_value(be_bytes(n)) == n,
        bytes.len() == 4 ==> be_value(bytes) <= u32::MAX && be_bytes(be_value(bytes) as u32) == bytes,
{
    lemma_split_u32(n);
    if bytes.len() == 4 {
        lemma_join_u8(bytes[0], bytes[1], bytes[2], bytes[3]);
        assert(be_bytes(be_value(bytes) as u32) =~= bytes);
    }
}

/// The six bytes that announce a payload.
pub open spec fn encode_header(header: HeaderView) -> Seq<u8> {
    seq![header.version, header.content_type.spec_code()] + be_bytes(header.content_length as u32)
}

/// A frame on the wire: its header, then its payload.
pub open spec fn encode(frame: FrameView) -> Seq<u8> {
    encode_header(frame.header) + frame.payload
}

/// The payload length that the six bytes in front of a stream declare.
pub open spec fn declared_len(stream: Seq<u8>) -> nat
    recommends
        stream.len() >= HEADER_LEN,
{
    be_value(stream.subrange(2, 6))
}

/// An unexpected end of the stream, as the error of a read.
pub open spec fn unexpected_eof() -> SBMPError {
    SBMPError::IO(IoFailure::UnexpectedEof)
}

/// What the front of a stream is read as, up to the payload.
///
/// The fields are judged in the order in which they arrive: the version, the
/// content type, the length. The first field that is wrong decides the
/// error; a stream that ends before the next field is complete is an
/// unexpected end of file.
pub open spec fn decode_header(stream: Seq<u8>) -> Result<HeaderView, SBMPError> {
    if stream.len() < 1 {
        Err(unexpected_eof())
    } else if stream[0] != PROTOCOL_VERSION {
        Err(SBMPError::WrongVersion)
    } else if stream.len() < 2 {
        Err(unexpected_eof())
    } else if content_type_of(stream[1]) is Err {
        Err(SBMPError::UknownContentType(stream[1]))
    } else if stream.len() < HEADER_LEN {
        Err(unexpected_eof())
    } else {
        validated(stream[0], stream[1], declared_len(stream) as u32)
    }
}

/// What the front of a stream is read as: the header, then as many bytes of
/// payload as the header declares.
pub open spec fn decode(stream: Seq<u8>) -> Result<FrameView, SBMPError> {
    match decode_header(stream) {
        Err(e) => Err(e),
        Ok(header) => if stream.len() < HEADER_LEN + header.content_length {
            Err(unexpected_eof())
        } else {
            Ok(
                FrameView {
                    header,
                    payload: stream.subrange(HEADER_LEN as int, HEADER_LEN + header.content_length),
                },
            )
        },
    }
}

/// How many bytes of a stream its first frame takes up, where there is one.
pub open spec fn frame_len(stream: Seq<u8>) -> nat
    recommends
        decode(stream) is Ok,
{
    HEADER_LEN as nat + declared_len(stream)
}

/// Writing a valid frame and reading it back gives the same frame, whatever
/// follows it in the stream, and reading takes exactly the bytes written.
pub proof fn lemma_decode_encode(frame: FrameView, rest: Seq<u8>)
    requires
        frame.valid(),
    ensures
        decode(encode(frame) + rest) == Ok::<FrameView, SBMPError>(frame),
        frame_len(encode(frame) + rest) == encode(frame).len(),
        encode(frame).len() == HEADER_LEN + frame.payload.len(),
{
    let n = frame.header.content_length as u32;
    let stream = encode(frame) + rest;
    lemma_be_round_trip(n, be_bytes(n));
    assert(stream.subrange(2, 6) =~= be_bytes(n));
    assert(stream.subrange(HEADER_LEN as int, HEADER_LEN + declared_len(stream)) =~= frame.payload);
}

/// Whatever is read as a frame is a valid frame, and the bytes it was read
/// from are the bytes that writing it gives.
pub proof fn lemma_encode_decode(stream: Seq<u8>)
    requires
        decode(stream) is Ok,
    ensures
        decode(stream)->Ok_0.valid(),
        frame_len(stream) <= stream.len(),
        encode(decode(stream)->Ok_0) == stream.subrange(0, frame_len(stream) as int),
{
    let frame = decode(stream)->Ok_0;
    lemma_be_round_trip(0, stream.subrange(2, 6));
    assert(encode(frame) =~= stream.subrange(0, frame_len(stream) as int));
}

/// A stream that does not open with the supported version byte is refused,
/// however well formed the rest of it is.
pub proof fn lemma_decode_wrong_version(stream: Seq<u8>)
    requires
        stream.len() >= 1,
        stream[0] != PROTOCOL_VERSION,
    ensures
        decode(stream) == Err::<FrameView, SBMPError>(SBMPError::WrongVersion),
{
}

/// A stream whose second byte is no content-type code is refused, and the
/// error reports that byte.
pub proof fn lemma_decode_unknown_content_type(stream: Seq<u8>)
    requires
        stream.len() >= 2,
        stream[0] == PROTOCOL_VERSION,
        stream[1] != 0,
        stream[1] != 1,
    ensures
        decode(stream) == Err::<FrameView, SBMPError>(SBMPError::UknownContentType(stream[1])),
{
}

} // verus!
