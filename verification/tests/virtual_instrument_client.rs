use std::io::{Cursor, Read};

use daqlab::instrument::{InstrumentValue, VirtualInstrumentId, VirtualParameterId};
use daqlab::protocol::virtual_instrument::{
    interpret_response, read_frame, MessageKind, VirtualInstrumentClient,
    VirtualInstrumentClientError, VirtualInstrumentMessage, VirtualInstrumentTransport,
    VirtualMessageCodecError,
};

struct TestTransport {
    input: Cursor<Vec<u8>>,
    output: Vec<u8>,
    clear_count: usize,
}

impl TestTransport {
    fn with_response(response: VirtualInstrumentMessage) -> Self {
        let frame = response.encode_frame().unwrap();

        Self {
            input: Cursor::new(frame.encode()),
            output: Vec::new(),
            clear_count: 0,
        }
    }
}

impl std::io::Read for TestTransport {
    fn read(&mut self, buffer: &mut [u8]) -> std::io::Result<usize> {
        self.input.read(buffer)
    }
}

impl std::io::Write for TestTransport {
    fn write(&mut self, buffer: &[u8]) -> std::io::Result<usize> {
        self.output.extend_from_slice(buffer);

        Ok(buffer.len())
    }

    fn flush(&mut self) -> std::io::Result<()> {
        Ok(())
    }
}

impl VirtualInstrumentTransport for TestTransport {
    fn clear_input(&mut self) -> std::io::Result<()> {
        self.clear_count += 1;
        Ok(())
    }
}

fn written_message(transport: &TestTransport) -> VirtualInstrumentMessage {
    let mut input = Cursor::new(transport.output.clone());

    let frame = read_frame(&mut input).0.unwrap();

    VirtualInstrumentMessage::decode_frame(&frame).unwrap()
}

#[test]
fn requests_instrument_catalog() {
    let response = VirtualInstrumentMessage::DescribeResponse { instruments: Vec::new() };

    let mut transport = TestTransport::with_response(response);

    let instruments = {
        let mut client = VirtualInstrumentClient::new(&mut transport);

        client.describe().unwrap()
    };

    assert!(instruments.is_empty());

    assert_eq!(written_message(&transport), VirtualInstrumentMessage::DescribeRequest);

    assert_eq!(transport.clear_count, 1);
}

#[test]
fn client_reads_parameter() {
    let response = VirtualInstrumentMessage::ReadResponse {
        value: InstrumentValue::Number(42.5_f64.to_bits()),
    };

    let mut transport = TestTransport::with_response(response);

    let value = {
        let mut client = VirtualInstrumentClient::new(&mut transport);

        client.read(VirtualInstrumentId::new(2), VirtualParameterId::new(7)).unwrap()
    };

    assert_eq!(value, InstrumentValue::Number(42.5_f64.to_bits()));

    assert_eq!(
        written_message(&transport),
        VirtualInstrumentMessage::ReadRequest {
            instrument: VirtualInstrumentId::new(2),
            parameter: VirtualParameterId::new(7),
        },
    );
}

#[test]
fn client_writes_parameter() {
    let response = VirtualInstrumentMessage::WriteResponse {
        value: InstrumentValue::Number(25.0_f64.to_bits()),
    };

    let mut transport = TestTransport::with_response(response);

    let actual_value = {
        let mut client = VirtualInstrumentClient::new(&mut transport);

        client
            .write(
                VirtualInstrumentId::new(3),
                VirtualParameterId::new(4),
                InstrumentValue::Number(25.0_f64.to_bits()),
            )
            .unwrap()
    };

    assert_eq!(actual_value, InstrumentValue::Number(25.0_f64.to_bits()));

    assert_eq!(
        written_message(&transport),
        VirtualInstrumentMessage::WriteRequest {
            instrument: VirtualInstrumentId::new(3),
            parameter: VirtualParameterId::new(4),
            value: InstrumentValue::Number(25.0_f64.to_bits()),
        },
    );
}

#[test]
fn reports_device_error() {
    let response = VirtualInstrumentMessage::ErrorResponse {
        code: 4,
        message: "unknown parameter".to_owned(),
    };

    let mut transport = TestTransport::with_response(response);

    let mut client = VirtualInstrumentClient::new(&mut transport);

    let result = client.read(VirtualInstrumentId::new(1), VirtualParameterId::new(99));

    assert!(matches!(
        result,
        Err(VirtualInstrumentClientError::Device { code: 4, ref message })
            if message == "unknown parameter",
    ));
}

#[test]
fn rejects_unexpected_response() {
    let response = VirtualInstrumentMessage::WriteResponse { value: InstrumentValue::Integer(1) };

    let mut transport = TestTransport::with_response(response);

    let mut client = VirtualInstrumentClient::new(&mut transport);

    let result = client.read(VirtualInstrumentId::new(1), VirtualParameterId::new(1));

    assert!(matches!(
        result,
        Err(VirtualInstrumentClientError::UnexpectedResponse {
            expected: MessageKind::ReadResponse,
            actual: MessageKind::WriteResponse,
        }),
    ));
}

#[test]
fn reports_undecodable_response() {
    let mut transport = TestTransport {
        input: Cursor::new(Vec::new()),
        output: Vec::new(),
        clear_count: 0,
    };
    let frame = daqlab::protocol::virtual_instrument::VirtualInstrumentFrame::new(
        MessageKind::ReadResponse,
        vec![1, 5],
    )
    .unwrap();
    transport.input = Cursor::new(frame.encode());

    let mut client = VirtualInstrumentClient::new(&mut transport);
    let result = client.read(VirtualInstrumentId::new(1), VirtualParameterId::new(1));

    assert!(matches!(
        result,
        Err(VirtualInstrumentClientError::Message(VirtualMessageCodecError::InvalidBoolean(5))),
    ));
}

#[test]
fn interprets_responses() {
    let accepted = interpret_response(
        MessageKind::ReadResponse,
        VirtualInstrumentMessage::ReadResponse { value: InstrumentValue::Boolean(true) },
    );
    assert!(matches!(
        accepted,
        Ok(VirtualInstrumentMessage::ReadResponse { value: InstrumentValue::Boolean(true) })
    ));

    let device = interpret_response(
        MessageKind::WriteResponse,
        VirtualInstrumentMessage::ErrorResponse { code: 7, message: "range".to_owned() },
    )
    .err()
    .unwrap();
    assert_eq!(device.to_string(), "Virtual instrument error 7: range");

    let unexpected = interpret_response(
        MessageKind::DescribeResponse,
        VirtualInstrumentMessage::ReadRequest {
            instrument: VirtualInstrumentId::new(1),
            parameter: VirtualParameterId::new(1),
        },
    )
    .err()
    .unwrap();
    assert_eq!(
        unexpected.to_string(),
        "Unexpected virtual instrument response: expected DescribeResponse, received ReadRequest"
    );
}

#[test]
fn describes_clear_input_failure() {
    let error = VirtualInstrumentClientError::ClearInput(std::io::Error::new(
        std::io::ErrorKind::Other,
        "busy",
    ));
    assert_eq!(error.to_string(), "Failed to clear virtual instrument input: busy");
}
