use myowndesk::frame::{
    encode_frame, read_frame, FrameError, FrameReader, FrameStep, ReadOutcome, MAX_MSG_LEN,
};

#[test]
fn a_frame_is_its_length_and_its_payload() {
    assert_eq!(encode_frame(b"abc"), vec![3, 0, 0, 0, b'a', b'b', b'c']);
    let long = vec![7u8; 70_000];
    let frame = encode_frame(&long);
    assert_eq!(&frame[..4], &[0x70, 0x11, 0x01, 0x00]);
    assert_eq!(&frame[4..], &long[..]);
}

#[test]
fn a_frame_reads_back() {
    let payload = b"hello".to_vec();
    let mut stream = encode_frame(&payload);
    stream.extend_from_slice(b"more");
    assert_eq!(read_frame(&stream), Ok(Some(payload)));
    assert_eq!(read_frame(&encode_frame(b"")), Ok(Some(Vec::new())));
}

#[test]
fn an_ended_stream_has_no_frame() {
    assert_eq!(read_frame(b""), Ok(None));
    assert_eq!(read_frame(b"\x05\x00\x00"), Ok(None));
}

#[test]
fn a_cut_frame_is_truncated() {
    assert_eq!(read_frame(b"\x05\x00\x00\x00abc"), Err(FrameError::Truncated(5)));
}

#[test]
fn a_frame_that_is_too_long_is_refused() {
    let header = ((MAX_MSG_LEN + 1) as u32).to_le_bytes();
    assert_eq!(read_frame(&header), Err(FrameError::TooLong(16_777_217)));
    let header = (MAX_MSG_LEN as u32).to_le_bytes();
    assert_eq!(read_frame(&header), Err(FrameError::Truncated(MAX_MSG_LEN)));
}

#[test]
fn a_reader_asks_for_header_and_payload_in_turn() {
    let mut reader = FrameReader::new();
    assert_eq!(reader.wanted(), 4);
    assert!(matches!(reader.step(ReadOutcome::Filled(vec![2, 0, 0, 0])), FrameStep::More));
    assert_eq!(reader.wanted(), 2);
    match reader.step(ReadOutcome::Filled(vec![8, 9])) {
        FrameStep::Frame(payload) => assert_eq!(payload, vec![8, 9]),
        _ => panic!("the frame is complete"),
    }
    assert_eq!(reader.wanted(), 4);
    assert!(matches!(reader.step(ReadOutcome::FinishedEarly), FrameStep::Closed));
    assert!(matches!(reader.step(ReadOutcome::Failed), FrameStep::Failed));
    assert!(matches!(reader.step(ReadOutcome::Filled(vec![1, 0, 0, 0])), FrameStep::More));
    assert!(matches!(reader.step(ReadOutcome::FinishedEarly), FrameStep::Truncated(1)));
}
