use sbmp::build_frame;
use sbmp::encode_frame;
use sbmp::encode_text;
use sbmp::ContentType;
use sbmp::Frame;
use sbmp::FrameReader;
use sbmp::FrameWriter;
use sbmp::IoFailure;
use sbmp::SBMPError;

fn eof() -> SBMPError {
    SBMPError::IO(IoFailure::UnexpectedEof)
}

fn read_one(bytes: Vec<u8>) -> Result<Frame, SBMPError> {
    FrameReader::new(bytes).read_frame()
}

#[test]
fn what_is_written_is_read_back() {
    let payloads: Vec<Vec<u8>> =
        vec![vec![], vec![0], b"hi".to_vec(), vec![255; 4096], (0..=255).collect()];
    for content_type in [ContentType::UTF8, ContentType::Binary] {
        for payload in &payloads {
            let frame = build_frame(content_type, payload).unwrap();
            let mut reader = FrameReader::new(encode_frame(&frame));
            assert_eq!(reader.read_frame(), Ok(frame));
            assert_eq!(reader.wanted(), 1);
            assert_eq!(reader.read_frame(), Err(eof()));
        }
    }
}

#[test]
fn the_largest_binary_frame_is_read_back() {
    let frame = build_frame(ContentType::Binary, &vec![3u8; 4194304]).unwrap();
    let bytes = encode_frame(&frame);
    assert_eq!(bytes.len(), 4194310);
    assert_eq!(read_one(bytes), Ok(frame));
}

#[test]
fn frames_are_read_one_by_one() {
    let first = build_frame(ContentType::UTF8, b"one").unwrap();
    let second = build_frame(ContentType::Binary, &[2, 2]).unwrap();
    let mut writer = FrameWriter::new(Vec::new());
    writer.write_frame(first.clone());
    writer.write_frame(second.clone());
    assert_eq!(writer.get_ref(), &vec![1, 0, 0, 0, 0, 3, b'o', b'n', b'e', 1, 1, 0, 0, 0, 2, 2, 2]);
    let mut reader = FrameReader::new(writer.take());
    assert!(writer.get_ref().is_empty());
    assert_eq!(reader.read_frame(), Ok(first));
    assert_eq!(reader.read_frame(), Ok(second));
    assert_eq!(reader.read_frame(), Err(eof()));
}

#[test]
fn a_writer_appends_to_what_it_was_given() {
    let mut writer = FrameWriter::new(vec![9, 9]);
    writer.write_frame(build_frame(ContentType::UTF8, b"a").unwrap());
    assert_eq!(writer.take(), vec![9, 9, 1, 0, 0, 0, 0, 1, b'a']);
    assert_eq!(writer.take(), Vec::<u8>::new());
}

#[test]
fn a_wrong_version_is_refused() {
    for version in (0u8..=255).filter(|v| *v != 1) {
        assert_eq!(read_one(vec![version, 0, 0, 0, 0, 2, b'h', b'i']), Err(SBMPError::WrongVersion));
        assert_eq!(read_one(vec![version]), Err(SBMPError::WrongVersion));
    }
}

#[test]
fn an_unknown_content_type_is_reported() {
    for code in 2u8..=255 {
        assert_eq!(
            read_one(vec![1, code, 0, 0, 0, 2, b'h', b'i']),
            Err(SBMPError::UknownContentType(code))
        );
        assert_eq!(read_one(vec![1, code]), Err(SBMPError::UknownContentType(code)));
    }
}

#[test]
fn the_version_is_judged_before_the_content_type() {
    assert_eq!(read_one(vec![2, 9, 255, 255, 255, 255]), Err(SBMPError::WrongVersion));
    assert_eq!(read_one(vec![1, 9, 255, 255, 255, 255]), Err(SBMPError::UknownContentType(9)));
}

#[test]
fn an_oversized_frame_is_refused() {
    assert_eq!(read_one(vec![1, 0, 0, 0, 0x10, 1]), Err(SBMPError::LargeFrame));
    assert_eq!(read_one(vec![1, 1, 0, 0x40, 0, 1]), Err(SBMPError::LargeFrame));
    assert_eq!(read_one(vec![1, 0, 255, 255, 255, 255]), Err(SBMPError::LargeFrame));
    assert_eq!(read_one(vec![1, 1, 0, 0, 0x10, 1]), Err(eof()));
}

#[test]
fn a_truncated_frame_is_an_unexpected_end() {
    let bytes = vec![1, 0, 0, 0, 0, 2, b'h', b'i'];
    for cut in 0..bytes.len() {
        assert_eq!(read_one(bytes[..cut].to_vec()), Err(eof()));
    }
    assert!(read_one(bytes).is_ok());
}

#[test]
fn an_error_leaves_the_stream_where_it_was() {
    let mut reader = FrameReader::new(vec![1, 7, 0, 0]);
    assert_eq!(reader.read_frame(), Err(SBMPError::UknownContentType(7)));
    assert_eq!(reader.read_frame(), Err(SBMPError::UknownContentType(7)));
    assert_eq!(reader.wanted(), 0);
}

#[test]
fn a_reader_says_what_it_wants() {
    let mut reader = FrameReader::new(Vec::new());
    assert_eq!(reader.wanted(), 1);
    reader.push(&[1]);
    assert_eq!(reader.wanted(), 1);
    reader.push(&[0]);
    assert_eq!(reader.wanted(), 4);
    reader.push(&[0, 0]);
    assert_eq!(reader.wanted(), 2);
    reader.push(&[0, 2]);
    assert_eq!(reader.wanted(), 2);
    assert_eq!(reader.read_frame(), Err(eof()));
    reader.push(b"h");
    assert_eq!(reader.wanted(), 1);
    reader.push(b"i");
    assert_eq!(reader.wanted(), 0);
    assert_eq!(reader.read_frame(), build_frame(ContentType::UTF8, b"hi"));
    assert_eq!(reader.wanted(), 1);
}

#[test]
fn a_reader_wants_nothing_more_of_a_bad_stream() {
    assert_eq!(FrameReader::new(vec![2]).wanted(), 0);
    assert_eq!(FrameReader::new(vec![1, 2]).wanted(), 0);
    assert_eq!(FrameReader::new(vec![1, 0, 0, 0, 0x10, 1]).wanted(), 0);
    assert_eq!(FrameReader::new(vec![1, 1, 0, 0x40, 0, 0]).wanted(), 4194304);
    assert_eq!(FrameReader::new(vec![1, 0, 0, 0, 0, 0]).wanted(), 0);
}

#[test]
fn what_follows_a_frame_stays_in_the_stream() {
    let mut reader = FrameReader::new(vec![1, 1, 0, 0, 0, 1, 42, 1, 0]);
    assert_eq!(reader.read_frame(), build_frame(ContentType::Binary, &[42]));
    assert_eq!(reader.wanted(), 4);
    reader.push(&[0, 0, 0, 0]);
    assert_eq!(reader.read_frame(), build_frame(ContentType::UTF8, b""));
}

#[test]
fn text_is_framed_as_utf8() {
    assert_eq!(encode_text("hi"), Ok(vec![1, 0, 0, 0, 0, 2, b'h', b'i']));
    assert_eq!(encode_text(""), Ok(vec![1, 0, 0, 0, 0, 0]));
    assert_eq!(encode_text("é"), Ok(vec![1, 0, 0, 0, 0, 2, 0xc3, 0xa9]));
    assert!(encode_text(&"a".repeat(4096)).is_ok());
    assert_eq!(encode_text(&"a".repeat(4097)), Err(SBMPError::LargeFrame));
    assert_eq!(encode_text(&"é".repeat(2049)), Err(SBMPError::LargeFrame));
}

#[test]
fn what_arrives_later_does_not_change_a_judgement() {
    let decided: Vec<Vec<u8>> =
        vec![vec![0], vec![1, 5], vec![1, 0, 0, 1, 0, 0], vec![1, 1, 0, 0, 0, 1, 7]];
    for stream in decided {
        let first = read_one(stream.clone());
        let mut longer = stream;
        longer.extend_from_slice(&[1, 0, 0, 0, 0, 0]);
        assert_eq!(FrameReader::new(longer.clone()).wanted(), 0);
        assert_eq!(read_one(longer), first);
    }
}

#[test]
fn a_fed_reader_never_takes_from_the_next_frame() {
    let first = build_frame(ContentType::UTF8, b"hello").unwrap();
    let second = build_frame(ContentType::Binary, &[1, 2, 3]).unwrap();
    let mut wire = encode_frame(&first);
    wire.extend_from_slice(&encode_frame(&second));
    let mut at = 0;
    let mut reader = FrameReader::new(Vec::new());
    let mut fetched = Vec::new();
    for frame in [first, second] {
        while reader.wanted() > 0 {
            let n = reader.wanted();
            fetched.push(n);
            reader.push(&wire[at..at + n]);
            at += n;
        }
        assert_eq!(at, fetched.iter().sum::<usize>());
        assert_eq!(reader.read_frame(), Ok(frame));
        assert_eq!(reader.wanted(), 1);
    }
    assert_eq!(fetched, vec![1, 1, 4, 5, 1, 1, 4, 3]);
    assert_eq!(at, wire.len());
}
