use std::io::Cursor;

use daqlab::protocol::virtual_instrument::{
    read_frame, write_frame, MessageKind, VirtualFrameDecoder, VirtualFrameError,
    VirtualFrameIoError, VirtualInstrumentFrame,
};

#[test]
fn writes_encoded_frame() {
    let frame = VirtualInstrumentFrame::new(MessageKind::ReadRequest, vec![1, 2, 3]).unwrap();

    let expected = frame.encode();

    let mut output = Vec::new();

    write_frame(&mut output, &frame).0.unwrap();

    assert_eq!(output, expected);
}

#[test]
fn reads_encoded_frame() {
    let expected = VirtualInstrumentFrame::new(MessageKind::WriteRequest, vec![4, 5, 6]).unwrap();

    let mut input = Cursor::new(expected.encode());

    let actual = read_frame(&mut input).0.unwrap();

    assert_eq!(actual, expected);
}

#[test]
fn reads_consecutive_frames() {
    let first = VirtualInstrumentFrame::new(MessageKind::DescribeRequest, Vec::new()).unwrap();

    let second = VirtualInstrumentFrame::new(MessageKind::ReadRequest, vec![1, 0, 2, 0]).unwrap();

    let mut bytes = first.encode();

    bytes.extend_from_slice(&second.encode());

    let mut input = Cursor::new(bytes);

    assert_eq!(read_frame(&mut input).0.unwrap(), first);

    assert_eq!(read_frame(&mut input).0.unwrap(), second);
}

#[test]
fn reports_truncated_frame() {
    let frame = VirtualInstrumentFrame::new(MessageKind::ReadResponse, vec![1, 1]).unwrap();

    let mut encoded = frame.encode();

    encoded.pop();

    let mut input = Cursor::new(encoded);

    let result = read_frame(&mut input).0;

    assert!(matches!(
        result,
        Err(VirtualFrameIoError::Io(error)) if error.kind() == std::io::ErrorKind::UnexpectedEof,
    ));
}

#[test]
fn rejects_invalid_header_before_body() {
    let mut encoded = VirtualInstrumentFrame::new(MessageKind::DescribeRequest, Vec::new())
        .unwrap()
        .encode();

    encoded[0] = b'X';

    let mut input = Cursor::new(encoded);

    let result = read_frame(&mut input).0;

    assert!(matches!(result, Err(VirtualFrameIoError::Frame(_))));
}

#[test]
fn decodes_fragmented_frame() {
    let expected = VirtualInstrumentFrame::new(MessageKind::ReadRequest, vec![1, 0, 2, 0]).unwrap();

    let encoded = expected.encode();

    let mut decoder = VirtualFrameDecoder::new();

    for &byte in &encoded[..encoded.len() - 1] {
        decoder.push(&[byte]);

        assert!(decoder.next_frame().unwrap().is_none());
    }

    decoder.push(&encoded[encoded.len() - 1..]);

    assert_eq!(decoder.next_frame().unwrap(), Some(expected));
}

#[test]
fn decodes_multiple_buffered_frames() {
    let first = VirtualInstrumentFrame::new(MessageKind::DescribeRequest, Vec::new()).unwrap();

    let second = VirtualInstrumentFrame::new(MessageKind::ReadRequest, vec![1, 0, 1, 0]).unwrap();

    let mut bytes = first.encode();
    bytes.extend_from_slice(&second.encode());

    let mut decoder = VirtualFrameDecoder::new();

    decoder.push(&bytes);

    assert_eq!(decoder.next_frame().unwrap(), Some(first));

    assert_eq!(decoder.next_frame().unwrap(), Some(second));

    assert!(decoder.next_frame().unwrap().is_none());
}

#[test]
fn skips_bytes_before_frame_magic() {
    let expected = VirtualInstrumentFrame::new(MessageKind::DescribeRequest, Vec::new()).unwrap();

    let mut bytes = vec![0x00, 0x11, 0x22, 0x33];

    bytes.extend_from_slice(&expected.encode());

    let mut decoder = VirtualFrameDecoder::new();

    decoder.push(&bytes);

    assert_eq!(decoder.next_frame().unwrap(), Some(expected));
}

#[test]
fn keeps_trailing_first_magic_byte() {
    let expected = VirtualInstrumentFrame::new(MessageKind::ReadRequest, vec![9]).unwrap();
    let encoded = expected.encode();

    let mut decoder = VirtualFrameDecoder::new();
    decoder.push(&[0x01, 0x02, encoded[0]]);
    assert!(decoder.next_frame().unwrap().is_none());

    decoder.push(&encoded[1..]);
    assert_eq!(decoder.next_frame().unwrap(), Some(expected));
}

#[test]
fn drops_one_byte_after_invalid_header() {
    let valid = VirtualInstrumentFrame::new(MessageKind::ReadRequest, vec![7]).unwrap();
    let mut bytes = vec![b'V', b'I', 9, 2, 0, 0];
    bytes.extend_from_slice(&valid.encode());

    let mut decoder = VirtualFrameDecoder::new();
    decoder.push(&bytes);

    assert_eq!(
        decoder.next_frame(),
        Err(VirtualFrameError::UnsupportedVersion { actual: 9 })
    );
    assert_eq!(decoder.next_frame().unwrap(), Some(valid));
}

#[test]
fn reports_crc_mismatch_from_decoder() {
    let frame = VirtualInstrumentFrame::new(MessageKind::ReadRequest, vec![1, 2]).unwrap();
    let mut encoded = frame.encode();
    let last = encoded.len() - 1;
    encoded[last] ^= 0xFF;

    let mut decoder = VirtualFrameDecoder::new();
    decoder.push(&encoded);

    assert!(matches!(
        decoder.next_frame(),
        Err(VirtualFrameError::CrcMismatch { .. })
    ));
    assert!(decoder.next_frame().unwrap().is_none());
}

#[test]
fn describes_frame_io_errors() {
    let error = VirtualFrameIoError::Frame(VirtualFrameError::UnknownMessageKind(0x7F));
    assert_eq!(
        error.to_string(),
        "Unknown virtual instrument message kind: 0x7F"
    );

    let io = VirtualFrameIoError::Io(std::io::Error::new(
        std::io::ErrorKind::Other,
        "link down",
    ));
    assert_eq!(io.to_string(), "Virtual instrument I/O failed: link down");
}
