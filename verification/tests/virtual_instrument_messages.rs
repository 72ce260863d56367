use daqlab::instrument::{
    InstrumentValue, ParameterAccess, ParameterRange, ParameterValueType,
    VirtualInstrumentDescriptor, VirtualInstrumentId, VirtualParameterDescriptor,
    VirtualParameterId,
};
use daqlab::protocol::virtual_instrument::message::VALUE_BOOLEAN;
use daqlab::protocol::virtual_instrument::{
    MessageKind, VirtualFrameError, VirtualInstrumentFrame, VirtualInstrumentMessage,
    VirtualMessageCodecError,
};

fn instrument_descriptor(id: u16) -> VirtualInstrumentDescriptor {
    let value = VirtualParameterDescriptor::new(
        VirtualParameterId::new(1),
        "value",
        "Signal value",
        ParameterAccess::ReadOnly,
        ParameterValueType::Number,
    )
    .with_range(ParameterRange::Number {
        minimum: (-100.0_f64).to_bits(),
        maximum: 100.0_f64.to_bits(),
    })
    .with_unit("V")
    .with_series(true);

    let amplitude = VirtualParameterDescriptor::new(
        VirtualParameterId::new(2),
        "amplitude",
        "Amplitude",
        ParameterAccess::ReadWrite,
        ParameterValueType::Number,
    );

    VirtualInstrumentDescriptor::new(
        VirtualInstrumentId::new(id),
        format!("Generator {id}"),
        vec![value, amplitude],
    )
    .unwrap()
}

fn round_trip(message: VirtualInstrumentMessage) {
    let frame = message.encode_frame().unwrap();

    let decoded = VirtualInstrumentMessage::decode_frame(&frame).unwrap();

    assert_eq!(decoded, message);
}

#[test]
fn round_trips_describe_request() {
    round_trip(VirtualInstrumentMessage::DescribeRequest);
}

#[test]
fn round_trips_instrument_catalog() {
    round_trip(VirtualInstrumentMessage::DescribeResponse {
        instruments: vec![instrument_descriptor(1), instrument_descriptor(2)],
    });
}

#[test]
fn round_trips_read_request() {
    round_trip(VirtualInstrumentMessage::ReadRequest {
        instrument: VirtualInstrumentId::new(7),
        parameter: VirtualParameterId::new(3),
    });
}

#[test]
fn round_trips_values() {
    for value in [
        InstrumentValue::Boolean(true),
        InstrumentValue::Integer(-42),
        InstrumentValue::Number(12.5_f64.to_bits()),
    ] {
        round_trip(VirtualInstrumentMessage::ReadResponse { value });

        round_trip(VirtualInstrumentMessage::WriteResponse { value });
    }
}

#[test]
fn round_trips_write_request() {
    round_trip(VirtualInstrumentMessage::WriteRequest {
        instrument: VirtualInstrumentId::new(2),
        parameter: VirtualParameterId::new(4),
        value: InstrumentValue::Number(125.5_f64.to_bits()),
    });
}

#[test]
fn round_trips_error_response() {
    round_trip(VirtualInstrumentMessage::ErrorResponse {
        code: 17,
        message: "parameter is read-only".to_owned(),
    });
}

#[test]
fn rejects_duplicate_instrument_ids() {
    let message = VirtualInstrumentMessage::DescribeResponse {
        instruments: vec![instrument_descriptor(1), instrument_descriptor(1)],
    };

    let result = message.encode_frame();

    assert!(matches!(
        result,
        Err(VirtualMessageCodecError::DuplicateInstrumentId(id)) if id == VirtualInstrumentId::new(1),
    ));
}

#[test]
fn rejects_trailing_payload_bytes() {
    let frame = VirtualInstrumentFrame::new(MessageKind::DescribeRequest, vec![0]).unwrap();

    let result = VirtualInstrumentMessage::decode_frame(&frame);

    assert!(matches!(result, Err(VirtualMessageCodecError::TrailingBytes(1))));
}

#[test]
fn rejects_invalid_boolean_value() {
    let frame =
        VirtualInstrumentFrame::new(MessageKind::ReadResponse, vec![VALUE_BOOLEAN, 2]).unwrap();

    let result = VirtualInstrumentMessage::decode_frame(&frame);

    assert!(matches!(result, Err(VirtualMessageCodecError::InvalidBoolean(2))));
}

#[test]
fn encodes_read_request_payload_bytes() {
    let frame = VirtualInstrumentMessage::ReadRequest {
        instrument: VirtualInstrumentId::new(0x0102),
        parameter: VirtualParameterId::new(3),
    }
    .encode_frame()
    .unwrap();

    assert_eq!(frame.kind(), MessageKind::ReadRequest);
    assert_eq!(frame.payload(), &[0x02, 0x01, 0x03, 0x00]);
}

#[test]
fn encodes_error_response_payload_bytes() {
    let frame = VirtualInstrumentMessage::ErrorResponse {
        code: 0x0203,
        message: "ok".to_owned(),
    }
    .encode_frame()
    .unwrap();

    assert_eq!(frame.kind(), MessageKind::ErrorResponse);
    assert_eq!(frame.payload(), &[0x03, 0x02, 0x02, 0x00, b'o', b'k']);
}

#[test]
fn rejects_non_finite_number() {
    let mut payload = vec![3_u8];
    payload.extend_from_slice(&f64::NAN.to_bits().to_le_bytes());
    let frame = VirtualInstrumentFrame::new(MessageKind::ReadResponse, payload).unwrap();

    let result = VirtualInstrumentMessage::decode_frame(&frame);

    assert!(matches!(result, Err(VirtualMessageCodecError::NonFiniteNumber)));

    let mut payload = vec![3_u8];
    payload.extend_from_slice(&f64::NEG_INFINITY.to_bits().to_le_bytes());
    let frame = VirtualInstrumentFrame::new(MessageKind::WriteResponse, payload).unwrap();

    assert!(matches!(
        VirtualInstrumentMessage::decode_frame(&frame),
        Err(VirtualMessageCodecError::NonFiniteNumber),
    ));
}

#[test]
fn rejects_truncated_payload() {
    let frame = VirtualInstrumentFrame::new(MessageKind::ReadRequest, vec![1, 0, 2]).unwrap();

    assert!(matches!(
        VirtualInstrumentMessage::decode_frame(&frame),
        Err(VirtualMessageCodecError::UnexpectedEnd),
    ));
}

#[test]
fn rejects_unknown_value_type() {
    let frame = VirtualInstrumentFrame::new(MessageKind::ReadResponse, vec![9, 0]).unwrap();

    assert!(matches!(
        VirtualInstrumentMessage::decode_frame(&frame),
        Err(VirtualMessageCodecError::UnknownValueType(9)),
    ));
}

#[test]
fn rejects_invalid_utf8_string() {
    let frame =
        VirtualInstrumentFrame::new(MessageKind::ErrorResponse, vec![1, 0, 1, 0, 0xFF]).unwrap();

    assert!(matches!(
        VirtualInstrumentMessage::decode_frame(&frame),
        Err(VirtualMessageCodecError::InvalidUtf8),
    ));
}

#[test]
fn rejects_unknown_parameter_codes() {
    let mut catalog = vec![1, 0, 5, 0, 1, 0, b'G', 1, 0];
    catalog.extend_from_slice(&[1, 0, 1, 0, b'k', 1, 0, b'n']);

    let mut bad_access = catalog.clone();
    bad_access.extend_from_slice(&[9, 1, 0, 0, 0]);
    let frame = VirtualInstrumentFrame::new(MessageKind::DescribeResponse, bad_access).unwrap();
    assert!(matches!(
        VirtualInstrumentMessage::decode_frame(&frame),
        Err(VirtualMessageCodecError::UnknownParameterAccess(9)),
    ));

    let mut bad_type = catalog.clone();
    bad_type.extend_from_slice(&[1, 7, 0, 0, 0]);
    let frame = VirtualInstrumentFrame::new(MessageKind::DescribeResponse, bad_type).unwrap();
    assert!(matches!(
        VirtualInstrumentMessage::decode_frame(&frame),
        Err(VirtualMessageCodecError::UnknownParameterValueType(7)),
    ));

    let mut bad_range = catalog.clone();
    bad_range.extend_from_slice(&[1, 1, 0, 5, 0]);
    let frame = VirtualInstrumentFrame::new(MessageKind::DescribeResponse, bad_range).unwrap();
    assert!(matches!(
        VirtualInstrumentMessage::decode_frame(&frame),
        Err(VirtualMessageCodecError::UnknownRangeType(5)),
    ));

    let mut valid = catalog;
    valid.extend_from_slice(&[3, 2, 1, 0, 0]);
    let frame = VirtualInstrumentFrame::new(MessageKind::DescribeResponse, valid).unwrap();
    let decoded = VirtualInstrumentMessage::decode_frame(&frame).unwrap();
    let expected = VirtualInstrumentDescriptor::new(
        VirtualInstrumentId::new(5),
        "G".to_owned(),
        vec![VirtualParameterDescriptor::new(
            VirtualParameterId::new(1),
            "k",
            "n",
            ParameterAccess::ReadWrite,
            ParameterValueType::Integer,
        )
        .with_series(true)],
    )
    .unwrap();
    assert_eq!(
        decoded,
        VirtualInstrumentMessage::DescribeResponse { instruments: vec![expected] }
    );
}

#[test]
fn rejects_repeated_ids_while_decoding() {
    let mut instrument = vec![5, 0, 1, 0, b'G', 0, 0];
    let mut payload = vec![2, 0];
    payload.append(&mut instrument.clone());
    payload.append(&mut instrument);
    let frame = VirtualInstrumentFrame::new(MessageKind::DescribeResponse, payload).unwrap();
    assert!(matches!(
        VirtualInstrumentMessage::decode_frame(&frame),
        Err(VirtualMessageCodecError::DuplicateInstrumentId(id)) if id == VirtualInstrumentId::new(5),
    ));

    let parameter = [4, 0, 1, 0, b'k', 1, 0, b'n', 1, 1, 0, 0, 0];
    let mut payload = vec![1, 0, 5, 0, 1, 0, b'G', 2, 0];
    payload.extend_from_slice(&parameter);
    payload.extend_from_slice(&parameter);
    let frame = VirtualInstrumentFrame::new(MessageKind::DescribeResponse, payload).unwrap();
    let result = VirtualInstrumentMessage::decode_frame(&frame);
    match result {
        Err(VirtualMessageCodecError::Schema(error)) => assert_eq!(
            error.to_string(),
            "Virtual instrument 5 declares parameter ID 4 more than once"
        ),
        other => panic!("unexpected result {other:?}"),
    }
}

#[test]
fn rejects_oversized_message_payload() {
    let message = VirtualInstrumentMessage::ErrorResponse {
        code: 1,
        message: "x".repeat(5000),
    };

    assert!(matches!(
        message.encode_frame(),
        Err(VirtualMessageCodecError::Frame(VirtualFrameError::PayloadTooLong {
            length: 5004,
            maximum: 4096,
        })),
    ));
}

#[test]
fn rejects_overlong_string() {
    let message = VirtualInstrumentMessage::ErrorResponse {
        code: 1,
        message: "x".repeat(70000),
    };

    assert!(matches!(
        message.encode_frame(),
        Err(VirtualMessageCodecError::StringTooLong(70000)),
    ));
}

#[test]
fn describes_codec_errors() {
    assert_eq!(
        VirtualMessageCodecError::UnexpectedEnd.to_string(),
        "Unexpected end of virtual instrument payload"
    );
    assert_eq!(
        VirtualMessageCodecError::TrailingBytes(3).to_string(),
        "Virtual instrument payload has 3 trailing bytes"
    );
    assert_eq!(
        VirtualMessageCodecError::CollectionTooLong {
            collection: "instruments",
            length: 70000,
        }
        .to_string(),
        "Too many virtual instrument instruments: 70000"
    );
    assert_eq!(
        VirtualMessageCodecError::DuplicateInstrumentId(VirtualInstrumentId::new(4)).to_string(),
        "Duplicate virtual instrument ID 4"
    );
    assert_eq!(
        VirtualMessageCodecError::UnknownRangeType(9).to_string(),
        "Unknown virtual parameter range type: 9"
    );
    assert_eq!(
        VirtualMessageCodecError::Frame(VirtualFrameError::UnsupportedVersion { actual: 2 })
            .to_string(),
        "Unsupported virtual instrument protocol version: 2"
    );
}
