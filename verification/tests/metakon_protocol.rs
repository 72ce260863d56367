use daqlab::protocol::{metacon, metakon};
use daqlab::protocol::metakon::{
    read_int_register, read_register, ReadRegisterAttemptError, ReadRegisterRequest,
    ReadResponseError, RegisterDataType, RegisterValue,
};
use daqlab::serial_connection::{SerialConnectionError, SerialExchange};

#[test]
fn metakon_matches_single_byte_reference_values() {
    assert_eq!(metakon::calculate_crc(&[0x00]), 0x35);
    assert_eq!(metakon::calculate_crc(&[0x01]), 0x6B);
    assert_eq!(metakon::calculate_crc(&[0xFF]), 0x00);
}

#[test]
fn metakon_encodes_device_one_read_request() {
    let request = metakon::ReadRegisterRequest::new(0x01, 0x00, 0x01);
    assert_eq!(request.encode(), [0x01, 0x00, 0x01, 0x00, 0xA0]);
}

#[test]
fn metakon_encodes_device_two_read_request() {
    let request = metakon::ReadRegisterRequest::new(0x02, 0x00, 0x01);
    assert_eq!(request.encode(), [0x02, 0x00, 0x01, 0x00, 0x28]);
}

#[test]
fn metakon_parses_positive_int_response() {
    let request = metakon::ReadRegisterRequest::new(0x01, 0x00, 0x01);
    let response = request
        .decode_response(&[0x01, 0x00, 0x01, 0x00, 0x44, 0xD2, 0x04, 0xF1])
        .unwrap();
    assert_eq!(response.device(), 1);
    assert_eq!(response.channel(), 0);
    assert_eq!(response.register(), 1);
    assert!(response.readable());
    assert!(!response.writable());
    assert_eq!(response.value(), &metakon::RegisterValue::Int(1234));
}

#[test]
fn metakon_parses_negative_int_response() {
    let request = metakon::ReadRegisterRequest::new(0x02, 0x01, 0x01);
    let response = request
        .decode_response(&[0x02, 0x01, 0x01, 0x00, 0x44, 0x85, 0xFF, 0xCC])
        .unwrap();
    assert_eq!(response.value(), &metakon::RegisterValue::Int(-123));
}

#[test]
fn metakon_rejects_corrupted_crc() {
    let request = metakon::ReadRegisterRequest::new(0x01, 0x00, 0x01);
    let error = request
        .decode_response(&[0x01, 0x00, 0x01, 0x00, 0x44, 0xD2, 0x04, 0x00])
        .unwrap_err();
    assert!(matches!(error, metakon::ReadResponseError::CrcMismatch { .. }));
}

#[test]
fn metakon_rejects_response_for_another_device() {
    let request = metakon::ReadRegisterRequest::new(0x01, 0x00, 0x01);
    let frame = metakon_with_crc(&[0x02, 0x00, 0x01, 0x00, 0x44, 0xD2, 0x04]);
    let error = request.decode_response(&frame).unwrap_err();
    assert_eq!(
        error,
        metakon::ReadResponseError::UnexpectedDevice { expected: 1, actual: 2 },
    );
}

#[test]
fn metakon_rejects_invalid_int_length() {
    let request = metakon::ReadRegisterRequest::new(0x01, 0x00, 0x01);
    let frame = metakon_with_crc(&[0x01, 0x00, 0x01, 0x00, 0x44, 0xD2]);
    let error = request.decode_response(&frame).unwrap_err();
    assert_eq!(
        error,
        metakon::ReadResponseError::InvalidDataLength { type_code: 4, expected: 2, actual: 1 },
    );
}

fn metakon_with_crc(bytes: &[u8]) -> Vec<u8> {
    let mut frame = bytes.to_vec();
    frame.push(metakon::calculate_crc(bytes));
    frame
}

#[test]
fn metacon_matches_single_byte_reference_values() {
    assert_eq!(metacon::calculate_crc(&[0x00]), 0x35);
    assert_eq!(metacon::calculate_crc(&[0x01]), 0x6B);
    assert_eq!(metacon::calculate_crc(&[0xFF]), 0x00);
}

#[test]
fn metacon_encodes_device_one_read_request() {
    let request = metacon::ReadRegisterRequest::new(0x01, 0x00, 0x01);
    assert_eq!(request.encode(), [0x01, 0x00, 0x01, 0x00, 0xA0]);
}

#[test]
fn metacon_encodes_device_two_read_request() {
    let request = metacon::ReadRegisterRequest::new(0x02, 0x00, 0x01);
    assert_eq!(request.encode(), [0x02, 0x00, 0x01, 0x00, 0x28]);
}

#[test]
fn metacon_parses_positive_int_response() {
    let request = metacon::ReadRegisterRequest::new(0x01, 0x00, 0x01);
    let response = request
        .decode_response(&[0x01, 0x00, 0x01, 0x00, 0x44, 0xD2, 0x04, 0xF1])
        .unwrap();
    assert_eq!(response.device(), 1);
    assert_eq!(response.channel(), 0);
    assert_eq!(response.register(), 1);
    assert!(response.readable());
    assert!(!response.writable());
    assert_eq!(response.value(), &metacon::RegisterValue::Int(1234));
}

#[test]
fn metacon_parses_negative_int_response() {
    let request = metacon::ReadRegisterRequest::new(0x02, 0x01, 0x01);
    let response = request
        .decode_response(&[0x02, 0x01, 0x01, 0x00, 0x44, 0x85, 0xFF, 0xCC])
        .unwrap();
    assert_eq!(response.value(), &metacon::RegisterValue::Int(-123));
}

#[test]
fn metacon_rejects_corrupted_crc() {
    let request = metacon::ReadRegisterRequest::new(0x01, 0x00, 0x01);
    let error = request
        .decode_response(&[0x01, 0x00, 0x01, 0x00, 0x44, 0xD2, 0x04, 0x00])
        .unwrap_err();
    assert!(matches!(error, metacon::ReadResponseError::CrcMismatch { .. }));
}

#[test]
fn metacon_rejects_response_for_another_device() {
    let request = metacon::ReadRegisterRequest::new(0x01, 0x00, 0x01);
    let frame = metacon_with_crc(&[0x02, 0x00, 0x01, 0x00, 0x44, 0xD2, 0x04]);
    let error = request.decode_response(&frame).unwrap_err();
    assert_eq!(
        error,
        metacon::ReadResponseError::UnexpectedDevice { expected: 1, actual: 2 },
    );
}

#[test]
fn metacon_rejects_invalid_int_length() {
    let request = metacon::ReadRegisterRequest::new(0x01, 0x00, 0x01);
    let frame = metacon_with_crc(&[0x01, 0x00, 0x01, 0x00, 0x44, 0xD2]);
    let error = request.decode_response(&frame).unwrap_err();
    assert_eq!(
        error,
        metacon::ReadResponseError::InvalidDataLength { type_code: 4, expected: 2, actual: 1 },
    );
}

fn metacon_with_crc(bytes: &[u8]) -> Vec<u8> {
    let mut frame = bytes.to_vec();
    frame.push(metacon::calculate_crc(bytes));
    frame
}

#[test]
fn calculates_fixed_response_lengths() {
    assert_eq!(RegisterDataType::Byte.response_length(), 7);
    assert_eq!(RegisterDataType::Int.response_length(), 8);
    assert_eq!(RegisterDataType::Double.response_length(), 14);
}

#[test]
fn parses_negative_byte_response() {
    let request = ReadRegisterRequest::new(0x0F, 0x00, 0x06);
    let frame = metakon_with_crc(&[0x0F, 0x00, 0x06, 0x00, 0xC2, 0xE7]);
    let response = request.decode_response(&frame).unwrap();
    assert!(response.readable());
    assert!(response.writable());
    assert_eq!(response.value(), &RegisterValue::Byte(-25));
}

#[test]
fn parses_ascii_and_float_responses() {
    let request = ReadRegisterRequest::new(0x01, 0x00, 0x20);
    let frame = metakon_with_crc(&[0x01, 0x00, 0x20, 0x00, 0x49, b'O', b'K', 0x00]);
    let response = request.decode_response(&frame).unwrap();
    assert_eq!(response.value(), &RegisterValue::Ascii("OK".to_owned()));

    let bits = 2.5_f32.to_bits().to_le_bytes();
    let frame = metakon_with_crc(&[0x01, 0x00, 0x20, 0x00, 0x47, bits[0], bits[1], bits[2], bits[3]]);
    let response = request.decode_response(&frame).unwrap();
    assert_eq!(response.value(), &RegisterValue::Float(2.5_f32.to_bits()));
}

#[test]
fn rejects_ascii_without_terminator_and_bad_bool() {
    let request = ReadRegisterRequest::new(0x01, 0x00, 0x20);
    let frame = metakon_with_crc(&[0x01, 0x00, 0x20, 0x00, 0x49, b'O', b'K']);
    assert_eq!(request.decode_response(&frame).unwrap_err(), ReadResponseError::InvalidAscii);

    let frame = metakon_with_crc(&[0x01, 0x00, 0x20, 0x00, 0x40, 0x01]);
    assert_eq!(request.decode_response(&frame).unwrap_err(), ReadResponseError::InvalidBool(1));

    let frame = metakon_with_crc(&[0x01, 0x00, 0x20, 0x00, 0x4A, 0x01]);
    assert_eq!(request.decode_response(&frame).unwrap_err(), ReadResponseError::UnsupportedType(10));
}

#[test]
fn describes_response_errors() {
    assert_eq!(
        ReadResponseError::CrcMismatch { expected: 0xF1, actual: 0x0 }.to_string(),
        "Metakon CRC mismatch: expected F1, received 00",
    );
    assert_eq!(
        ReadResponseError::UnexpectedDevice { expected: 1, actual: 2 }.to_string(),
        "Unexpected Metakon device address: expected 1, received 2",
    );
    assert_eq!(
        ReadResponseError::InvalidDataLength { type_code: 4, expected: 2, actual: 1 }.to_string(),
        "Invalid Metakon data length for type 4: expected 2, received 1",
    );
}

struct ScriptedPort {
    responses: Vec<Result<Vec<u8>, SerialConnectionError>>,
    requests: Vec<Vec<u8>>,
}

impl SerialExchange for ScriptedPort {
    fn exchange_exact(
        &mut self,
        request: &[u8],
        _response_length: usize,
    ) -> Result<Vec<u8>, SerialConnectionError> {
        self.requests.push(request.to_vec());
        self.responses.remove(0)
    }
}

#[test]
fn retries_register_read_until_a_valid_response() {
    let good = vec![0x01, 0x00, 0x01, 0x00, 0x44, 0xD2, 0x04, 0xF1];
    let mut port = ScriptedPort {
        responses: vec![
            Err(SerialConnectionError::new("timeout".to_owned())),
            Ok(vec![0x01, 0x00, 0x01, 0x00, 0x44, 0xD2, 0x04, 0x00]),
            Ok(good),
        ],
        requests: Vec::new(),
    };
    let value = read_int_register(&mut port, ReadRegisterRequest::new(1, 0, 1)).unwrap();
    assert_eq!(value, 1234);
    assert_eq!(port.requests.len(), 3);
    assert_eq!(port.requests[0], vec![0x01, 0x00, 0x01, 0x00, 0xA0]);
}

#[test]
fn reports_last_error_after_three_failed_attempts() {
    let byte_frame = metakon_with_crc(&[0x01, 0x00, 0x01, 0x00, 0x42, 0x05]);
    let mut port = ScriptedPort {
        responses: vec![
            Err(SerialConnectionError::new("timeout".to_owned())),
            Err(SerialConnectionError::new("timeout".to_owned())),
            Ok(byte_frame),
        ],
        requests: Vec::new(),
    };
    let error = read_register(&mut port, ReadRegisterRequest::new(1, 0, 1), RegisterDataType::Int)
        .unwrap_err();
    assert_eq!(error.attempts(), 3);
    assert_eq!(
        error.last_error(),
        &ReadRegisterAttemptError::UnexpectedValueType {
            expected: RegisterDataType::Int,
            actual: "Byte",
        },
    );
    assert_eq!(
        error.to_string(),
        "Metakon register read failed after 3 attempts: Expected Metakon Int response, got Byte",
    );
}
