use std::time::Duration;

use daqlab::instrument::{
    InstrumentValue, ParameterAccess, ParameterRange, ParameterValueType,
    VirtualInstrumentDescriptor, VirtualInstrumentId, VirtualParameterDescriptor,
    VirtualParameterId,
};
use daqlab::protocol::virtual_instrument::server::{
    check_read, check_write, reply_to_answer, validate_value, ValueValidationError,
    VirtualInstrumentModel, VirtualInstrumentModelError, VirtualInstrumentServer,
    ERROR_ACCESS_DENIED, ERROR_INVALID_REQUEST, ERROR_INVALID_VALUE, ERROR_MODEL_FAILURE,
    ERROR_OUT_OF_RANGE, ERROR_TYPE_MISMATCH, ERROR_UNKNOWN_INSTRUMENT, ERROR_UNKNOWN_PARAMETER,
};
use daqlab::protocol::virtual_instrument::VirtualInstrumentMessage;

const INSTRUMENT_ID: VirtualInstrumentId = VirtualInstrumentId(1);

const VALUE_ID: VirtualParameterId = VirtualParameterId(1);

const AMPLITUDE_ID: VirtualParameterId = VirtualParameterId(2);

const RESET_ID: VirtualParameterId = VirtualParameterId(3);

fn number(value: f64) -> InstrumentValue {
    InstrumentValue::Number(value.to_bits())
}

struct TestModel {
    instruments: Vec<VirtualInstrumentDescriptor>,
    amplitude: f64,
    fail_read: bool,
}

impl TestModel {
    fn new() -> Self {
        let value = VirtualParameterDescriptor::new(
            VALUE_ID,
            "value",
            "Value",
            ParameterAccess::ReadOnly,
            ParameterValueType::Number,
        )
        .with_series(true);

        let amplitude = VirtualParameterDescriptor::new(
            AMPLITUDE_ID,
            "amplitude",
            "Amplitude",
            ParameterAccess::ReadWrite,
            ParameterValueType::Number,
        )
        .with_range(ParameterRange::Number {
            minimum: 0.0_f64.to_bits(),
            maximum: 100.0_f64.to_bits(),
        });

        let reset = VirtualParameterDescriptor::new(
            RESET_ID,
            "reset",
            "Reset",
            ParameterAccess::WriteOnly,
            ParameterValueType::Boolean,
        );

        let instrument = VirtualInstrumentDescriptor::new(
            INSTRUMENT_ID,
            "Generator".to_owned(),
            vec![value, amplitude, reset],
        )
        .unwrap();

        Self { instruments: vec![instrument], amplitude: 10.0, fail_read: false }
    }
}

impl VirtualInstrumentModel for TestModel {
    fn instruments(&self) -> &[VirtualInstrumentDescriptor] {
        &self.instruments
    }

    fn read(
        &mut self,
        _instrument: VirtualInstrumentId,
        parameter: VirtualParameterId,
        _elapsed: Duration,
    ) -> Result<InstrumentValue, VirtualInstrumentModelError> {
        if self.fail_read {
            return Err(VirtualInstrumentModelError::new("simulated failure"));
        }

        match parameter {
            VALUE_ID => Ok(number(self.amplitude * 2.0)),

            AMPLITUDE_ID => Ok(number(self.amplitude)),

            _ => Err(VirtualInstrumentModelError::new("unsupported read")),
        }
    }

    fn write(
        &mut self,
        _instrument: VirtualInstrumentId,
        parameter: VirtualParameterId,
        value: InstrumentValue,
        _elapsed: Duration,
    ) -> Result<InstrumentValue, VirtualInstrumentModelError> {
        match (parameter, value) {
            (AMPLITUDE_ID, InstrumentValue::Number(bits)) => {
                self.amplitude = f64::from_bits(bits);

                Ok(InstrumentValue::Number(bits))
            }

            (RESET_ID, InstrumentValue::Boolean(value)) => {
                if value {
                    self.amplitude = 0.0;
                }

                Ok(InstrumentValue::Boolean(value))
            }

            _ => Err(VirtualInstrumentModelError::new("unsupported write")),
        }
    }
}

fn error_code(response: VirtualInstrumentMessage) -> u16 {
    let VirtualInstrumentMessage::ErrorResponse { code, .. } = response else {
        panic!("expected error response");
    };

    code
}

fn error_text(response: VirtualInstrumentMessage) -> String {
    let VirtualInstrumentMessage::ErrorResponse { message, .. } = response else {
        panic!("expected error response");
    };

    message
}

#[test]
fn describes_model() {
    let model = TestModel::new();

    let mut server = VirtualInstrumentServer::new(model);

    let response = server.handle(VirtualInstrumentMessage::DescribeRequest, Duration::ZERO);

    let VirtualInstrumentMessage::DescribeResponse { instruments } = response else {
        panic!("expected describe response");
    };

    assert_eq!(instruments.len(), 1);

    assert_eq!(instruments[0].name(), "Generator");
}

#[test]
fn server_reads_parameter() {
    let mut server = VirtualInstrumentServer::new(TestModel::new());

    let response = server.handle(
        VirtualInstrumentMessage::ReadRequest { instrument: INSTRUMENT_ID, parameter: VALUE_ID },
        Duration::ZERO,
    );

    assert_eq!(response, VirtualInstrumentMessage::ReadResponse { value: number(20.0) });
}

#[test]
fn server_writes_parameter() {
    let mut server = VirtualInstrumentServer::new(TestModel::new());

    let response = server.handle(
        VirtualInstrumentMessage::WriteRequest {
            instrument: INSTRUMENT_ID,
            parameter: AMPLITUDE_ID,
            value: number(25.0),
        },
        Duration::ZERO,
    );

    assert_eq!(response, VirtualInstrumentMessage::WriteResponse { value: number(25.0) });

    let response = server.handle(
        VirtualInstrumentMessage::ReadRequest { instrument: INSTRUMENT_ID, parameter: AMPLITUDE_ID },
        Duration::ZERO,
    );

    assert_eq!(response, VirtualInstrumentMessage::ReadResponse { value: number(25.0) });
}

#[test]
fn rejects_unknown_instrument() {
    let mut server = VirtualInstrumentServer::new(TestModel::new());

    let response = server.handle(
        VirtualInstrumentMessage::ReadRequest {
            instrument: VirtualInstrumentId::new(99),
            parameter: VALUE_ID,
        },
        Duration::ZERO,
    );

    assert_eq!(error_code(response), ERROR_UNKNOWN_INSTRUMENT);
}

#[test]
fn rejects_reading_write_only_parameter() {
    let mut server = VirtualInstrumentServer::new(TestModel::new());

    let response = server.handle(
        VirtualInstrumentMessage::ReadRequest { instrument: INSTRUMENT_ID, parameter: RESET_ID },
        Duration::ZERO,
    );

    assert_eq!(error_code(response), ERROR_ACCESS_DENIED);
}

#[test]
fn rejects_writing_read_only_parameter() {
    let mut server = VirtualInstrumentServer::new(TestModel::new());

    let response = server.handle(
        VirtualInstrumentMessage::WriteRequest {
            instrument: INSTRUMENT_ID,
            parameter: VALUE_ID,
            value: number(1.0),
        },
        Duration::ZERO,
    );

    assert_eq!(error_code(response), ERROR_ACCESS_DENIED);
}

#[test]
fn rejects_wrong_value_type() {
    let mut server = VirtualInstrumentServer::new(TestModel::new());

    let response = server.handle(
        VirtualInstrumentMessage::WriteRequest {
            instrument: INSTRUMENT_ID,
            parameter: AMPLITUDE_ID,
            value: InstrumentValue::Integer(25),
        },
        Duration::ZERO,
    );

    assert_eq!(error_code(response), ERROR_TYPE_MISMATCH);
}

#[test]
fn rejects_value_outside_range() {
    let mut server = VirtualInstrumentServer::new(TestModel::new());

    let response = server.handle(
        VirtualInstrumentMessage::WriteRequest {
            instrument: INSTRUMENT_ID,
            parameter: AMPLITUDE_ID,
            value: number(125.0),
        },
        Duration::ZERO,
    );

    assert_eq!(error_code(response), ERROR_OUT_OF_RANGE);
}

#[test]
fn reports_model_failure() {
    let mut model = TestModel::new();
    model.fail_read = true;

    let mut server = VirtualInstrumentServer::new(model);

    let response = server.handle(
        VirtualInstrumentMessage::ReadRequest { instrument: INSTRUMENT_ID, parameter: VALUE_ID },
        Duration::ZERO,
    );

    assert_eq!(error_code(response), ERROR_MODEL_FAILURE);
}

#[test]
fn words_refusals() {
    let mut server = VirtualInstrumentServer::new(TestModel::new());

    let unknown_instrument = server.handle(
        VirtualInstrumentMessage::ReadRequest {
            instrument: VirtualInstrumentId::new(99),
            parameter: VALUE_ID,
        },
        Duration::ZERO,
    );
    assert_eq!(error_text(unknown_instrument), "Unknown virtual instrument ID 99");

    let unknown_parameter = server.handle(
        VirtualInstrumentMessage::ReadRequest {
            instrument: INSTRUMENT_ID,
            parameter: VirtualParameterId::new(42),
        },
        Duration::ZERO,
    );
    assert_eq!(
        error_text(unknown_parameter.clone()),
        "Unknown parameter ID 42 for virtual instrument 1"
    );
    assert_eq!(error_code(unknown_parameter), ERROR_UNKNOWN_PARAMETER);

    let not_readable = server.handle(
        VirtualInstrumentMessage::ReadRequest { instrument: INSTRUMENT_ID, parameter: RESET_ID },
        Duration::ZERO,
    );
    assert_eq!(error_text(not_readable), "Virtual parameter 'reset' is not readable");

    let wrong_type = server.handle(
        VirtualInstrumentMessage::WriteRequest {
            instrument: INSTRUMENT_ID,
            parameter: AMPLITUDE_ID,
            value: InstrumentValue::Boolean(true),
        },
        Duration::ZERO,
    );
    assert_eq!(
        error_text(wrong_type),
        "Invalid value for virtual parameter 'amplitude': expected number, received boolean"
    );

    let not_a_request = server.handle(
        VirtualInstrumentMessage::WriteResponse { value: InstrumentValue::Integer(3) },
        Duration::ZERO,
    );
    assert_eq!(error_code(not_a_request.clone()), ERROR_INVALID_REQUEST);
    assert_eq!(
        error_text(not_a_request),
        "Expected virtual instrument request, received WriteResponse"
    );
}

#[test]
fn rejects_non_finite_write() {
    let mut server = VirtualInstrumentServer::new(TestModel::new());

    let response = server.handle(
        VirtualInstrumentMessage::WriteRequest {
            instrument: INSTRUMENT_ID,
            parameter: AMPLITUDE_ID,
            value: number(f64::INFINITY),
        },
        Duration::ZERO,
    );

    assert_eq!(error_code(response.clone()), ERROR_INVALID_VALUE);
    assert_eq!(
        error_text(response),
        "Invalid value for virtual parameter 'amplitude': number must be finite"
    );
}

#[test]
fn checks_model_answers() {
    let model = TestModel::new();
    let descriptor = check_read(&model.instruments, INSTRUMENT_ID, AMPLITUDE_ID).unwrap();

    let invalid = reply_to_answer(&descriptor, Ok(number(-1.0)), false);
    assert_eq!(
        error_text(invalid),
        "Virtual model returned invalid value for parameter 'amplitude': value is outside the declared range"
    );

    let failed = reply_to_answer(
        &descriptor,
        Err(VirtualInstrumentModelError::new("sensor offline")),
        true,
    );
    assert_eq!(error_text(failed), "sensor offline");

    let accepted = reply_to_answer(&descriptor, Ok(number(100.0)), true);
    assert_eq!(accepted, VirtualInstrumentMessage::WriteResponse { value: number(100.0) });

    assert!(check_write(&model.instruments, INSTRUMENT_ID, RESET_ID, InstrumentValue::Boolean(true)).is_ok());
}

#[test]
fn validates_values_against_ranges() {
    let integer = VirtualParameterDescriptor::new(
        VirtualParameterId::new(9),
        "count",
        "Count",
        ParameterAccess::ReadWrite,
        ParameterValueType::Integer,
    )
    .with_range(ParameterRange::Integer { minimum: -5, maximum: 5 });

    assert!(validate_value(&integer, InstrumentValue::Integer(-5)).is_ok());
    assert!(validate_value(&integer, InstrumentValue::Integer(5)).is_ok());
    assert_eq!(
        validate_value(&integer, InstrumentValue::Integer(6)),
        Err(ValueValidationError::OutOfRange)
    );
    assert_eq!(ValueValidationError::OutOfRange.code(), ERROR_OUT_OF_RANGE);

    let signed = VirtualParameterDescriptor::new(
        VirtualParameterId::new(10),
        "offset",
        "Offset",
        ParameterAccess::ReadWrite,
        ParameterValueType::Number,
    )
    .with_range(ParameterRange::Number {
        minimum: (-2.5_f64).to_bits(),
        maximum: (-0.5_f64).to_bits(),
    });

    assert!(validate_value(&signed, number(-1.0)).is_ok());
    assert!(validate_value(&signed, number(-2.5)).is_ok());
    assert_eq!(validate_value(&signed, number(-3.0)), Err(ValueValidationError::OutOfRange));
    assert_eq!(validate_value(&signed, number(0.0)), Err(ValueValidationError::OutOfRange));
    assert_eq!(
        validate_value(&signed, number(f64::NAN)),
        Err(ValueValidationError::NonFiniteNumber)
    );
}
