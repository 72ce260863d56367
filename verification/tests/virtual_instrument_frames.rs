use daqlab::protocol::virtual_instrument::{
    calculate_crc16, MessageKind, VirtualFrameError, VirtualInstrumentFrame, HEADER_LENGTH,
    MAGIC, MAX_PAYLOAD_LENGTH, VERSION,
};

#[test]
fn calculates_known_modbus_crc() {
    assert_eq!(calculate_crc16(b"123456789"), 0x4B37);
}

#[test]
fn round_trips_all_message_kinds() {
    let kinds = [
        MessageKind::DescribeRequest,
        MessageKind::DescribeResponse,
        MessageKind::ReadRequest,
        MessageKind::ReadResponse,
        MessageKind::WriteRequest,
        MessageKind::WriteResponse,
        MessageKind::ErrorResponse,
    ];

    for kind in kinds {
        let original = VirtualInstrumentFrame::new(kind, vec![1, 2, 3, 4]).unwrap();
        let encoded = original.encode();
        let decoded = VirtualInstrumentFrame::decode(&encoded).unwrap();
        assert_eq!(decoded, original);
    }
}

#[test]
fn writes_binary_header() {
    let frame = VirtualInstrumentFrame::new(MessageKind::ReadRequest, vec![0xAA, 0xBB])
        .unwrap()
        .encode();

    assert_eq!(&frame[0..2], &MAGIC);
    assert_eq!(frame[2], VERSION);
    assert_eq!(frame[3], MessageKind::ReadRequest.code());
    assert_eq!(&frame[4..6], &2_u16.to_le_bytes());
    assert_eq!(&frame[HEADER_LENGTH..HEADER_LENGTH + 2], &[0xAA, 0xBB]);
}

#[test]
fn rejects_short_frame() {
    let result = VirtualInstrumentFrame::decode(&[b'V', b'I', 1]);
    assert_eq!(
        result,
        Err(VirtualFrameError::FrameTooShort { length: 3, minimum: 8 }),
    );
}

#[test]
fn rejects_invalid_magic() {
    let mut frame = VirtualInstrumentFrame::new(MessageKind::DescribeRequest, Vec::new())
        .unwrap()
        .encode();
    frame[0] = b'X';
    let result = VirtualInstrumentFrame::decode(&frame);
    assert_eq!(result, Err(VirtualFrameError::InvalidMagic { actual: [b'X', b'I'] }));
}

#[test]
fn rejects_unsupported_version() {
    let mut frame = VirtualInstrumentFrame::new(MessageKind::DescribeRequest, Vec::new())
        .unwrap()
        .encode();
    frame[2] = VERSION + 1;
    let result = VirtualInstrumentFrame::decode(&frame);
    assert_eq!(result, Err(VirtualFrameError::UnsupportedVersion { actual: VERSION + 1 }));
}

#[test]
fn rejects_unknown_message_kind() {
    let mut frame = VirtualInstrumentFrame::new(MessageKind::DescribeRequest, Vec::new())
        .unwrap()
        .encode();
    frame[3] = 0x7F;
    let result = VirtualInstrumentFrame::decode(&frame);
    assert_eq!(result, Err(VirtualFrameError::UnknownMessageKind(0x7F)));
}

#[test]
fn rejects_incorrect_frame_length() {
    let mut frame = VirtualInstrumentFrame::new(MessageKind::ReadRequest, vec![1, 2])
        .unwrap()
        .encode();
    frame[4..6].copy_from_slice(&3_u16.to_le_bytes());
    let result = VirtualInstrumentFrame::decode(&frame);
    assert_eq!(
        result,
        Err(VirtualFrameError::FrameLengthMismatch { expected: 11, actual: 10 }),
    );
}

#[test]
fn rejects_corrupted_payload() {
    let mut frame = VirtualInstrumentFrame::new(MessageKind::WriteRequest, vec![1, 2, 3])
        .unwrap()
        .encode();
    frame[HEADER_LENGTH] ^= 0xFF;
    let result = VirtualInstrumentFrame::decode(&frame);
    assert!(matches!(result, Err(VirtualFrameError::CrcMismatch { .. })));
}

#[test]
fn rejects_oversized_payload() {
    let result = VirtualInstrumentFrame::new(
        MessageKind::DescribeResponse,
        vec![0; MAX_PAYLOAD_LENGTH + 1],
    );
    assert_eq!(
        result,
        Err(VirtualFrameError::PayloadTooLong {
            length: MAX_PAYLOAD_LENGTH + 1,
            maximum: MAX_PAYLOAD_LENGTH,
        }),
    );
}

#[test]
fn decoded_frame_reencodes_to_the_same_bytes() {
    let frame = VirtualInstrumentFrame::new(MessageKind::ErrorResponse, vec![9, 8, 7]).unwrap();
    let encoded = frame.encode();
    let decoded = VirtualInstrumentFrame::decode(&encoded).unwrap();
    assert_eq!(decoded.encode(), encoded);
    assert_eq!(decoded.kind(), MessageKind::ErrorResponse);
    assert_eq!(decoded.payload(), &[9, 8, 7]);
}

#[test]
fn describes_frame_errors() {
    assert_eq!(
        VirtualFrameError::FrameTooShort { length: 3, minimum: 8 }.to_string(),
        "Virtual instrument frame is too short: 3 bytes, minimum is 8",
    );
    assert_eq!(
        VirtualFrameError::InvalidMagic { actual: [b'X', 0x0A] }.to_string(),
        "Invalid virtual instrument frame magic: 58 0A",
    );
    assert_eq!(
        VirtualFrameError::UnknownMessageKind(0x7F).to_string(),
        "Unknown virtual instrument message kind: 0x7F",
    );
    assert_eq!(
        VirtualFrameError::CrcMismatch { expected: 0x4B37, actual: 0x12 }.to_string(),
        "Virtual instrument CRC mismatch: expected 0x4B37, received 0x0012",
    );
}

#[test]
fn message_kind_codes_round_trip() {
    for code in 0..=255u8 {
        if let Some(kind) = MessageKind::from_code(code) {
            assert_eq!(kind.code(), code);
        }
    }
    assert_eq!(MessageKind::from_code(0x81), Some(MessageKind::DescribeResponse));
    assert_eq!(MessageKind::from_code(0x04), None);
}
