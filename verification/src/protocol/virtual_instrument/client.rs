//! A client that sends one request at a time over a transport and waits for the response.
use vstd::prelude::*;

use std::io::{Read, Write};

use crate::instrument::{
    InstrumentValue, VirtualInstrumentDescriptor, VirtualInstrumentId, VirtualParameterId,
};
use crate::protocol::virtual_instrument::frame_io::{
    io_error_text, read_frame, read_log_outcome, write_frame, write_log_outcome, StreamCall,
};
use crate::protocol::virtual_instrument::message::{
    codec_error_text, decode_payload, instrument_views, message_frame, message_kind, MessageView,
};
use crate::protocol::virtual_instrument::{
    encode_frame_bytes, frame_error_text, kind_name, MessageKind, VirtualFrameError,
    VirtualFrameIoError, VirtualInstrumentMessage, VirtualMessageCodecError,
};
use crate::text::{decimal, push_decimal, push_str};

verus! {

/// A byte stream to an instrument (a `Read` and `Write` implementation) whose pending input can
/// be discarded.
pub trait VirtualInstrumentTransport {
    fn clear_input(&mut self) -> Result<(), std::io::Error>;
}

#[derive(Debug)]
pub enum VirtualInstrumentClientError {
    ClearInput(std::io::Error),
    FrameIo(VirtualFrameIoError),
    Message(VirtualMessageCodecError),
    Device { code: u16, message: String },
    UnexpectedResponse { expected: MessageKind, actual: MessageKind },
}

impl VirtualInstrumentClientError {
    /// The human-readable description of the error. An I/O error's own text, which the standard
    /// library gives, follows the prefix shown here.
    pub fn to_string(&self) -> (text: String)
        ensures
            match self {
                VirtualInstrumentClientError::ClearInput(_) => text@.len() >= 42 && text@.take(42)
                    == "Failed to clear virtual instrument input: "@,
                VirtualInstrumentClientError::FrameIo(VirtualFrameIoError::Frame(error)) => text@
                    == frame_error_text(*error),
                VirtualInstrumentClientError::FrameIo(VirtualFrameIoError::Io(_)) => text@.len() >= 31
                    && text@.take(31) == "Virtual instrument I/O failed: "@,
                VirtualInstrumentClientError::Message(error) => text@ == codec_error_text(*error),
                VirtualInstrumentClientError::Device { code, message } => text@
                    == "Virtual instrument error "@ + decimal(*code as nat) + ": "@ + message@,
                VirtualInstrumentClientError::UnexpectedResponse { expected, actual } => text@
                    == "Unexpected virtual instrument response: expected "@ + kind_name(*expected)
                    + ", received "@ + kind_name(*actual),
            },
    {
        match self {
            VirtualInstrumentClientError::ClearInput(error) => {
                let mut text = String::new();
                proof {
                    reveal_strlit("Failed to clear virtual instrument input: ");
                }
                push_str(&mut text, "Failed to clear virtual instrument input: ");
                let detail = io_error_text(error);
                push_str(&mut text, detail.as_str());
                assert(text@.take(42) =~= "Failed to clear virtual instrument input: "@);
                text
            },
            VirtualInstrumentClientError::FrameIo(error) => error.to_string(),
            VirtualInstrumentClientError::Message(error) => error.to_string(),
            VirtualInstrumentClientError::Device { code, message } => {
                let mut text = String::new();
                push_str(&mut text, "Virtual instrument error ");
                push_decimal(&mut text, *code as u64);
                push_str(&mut text, ": ");
                push_str(&mut text, message.as_str());
                text
            },
            VirtualInstrumentClientError::UnexpectedResponse { expected, actual } => {
                let mut text = String::new();
                push_str(&mut text, "Unexpected virtual instrument response: expected ");
                push_str(&mut text, expected.name());
                push_str(&mut text, ", received ");
                push_str(&mut text, actual.name());
                text
            },
        }
    }
}

/// Whether a client's error carries exactly the given device report.
pub open spec fn is_device_error(error: VirtualInstrumentClientError, code: u16, message: Seq<char>) -> bool {
    error matches VirtualInstrumentClientError::Device { code: c, message: m } && c == code && m@ == message
}

/// Whether a client's error says that a response of kind `expected` was awaited and one of kind
/// `actual` came.
pub open spec fn is_unexpected_response(error: VirtualInstrumentClientError, expected: MessageKind, actual: MessageKind) -> bool {
    error matches VirtualInstrumentClientError::UnexpectedResponse { expected: e, actual: a } && e == expected && a == actual
}

/// What a client makes of a decoded response when it awaits one of kind `expected`: a device's
/// error report becomes a `Device` error, a response of another kind an `UnexpectedResponse`,
/// and a response of the awaited kind is accepted.
pub fn interpret_response(expected: MessageKind, response: VirtualInstrumentMessage) -> (result: Result<VirtualInstrumentMessage, VirtualInstrumentClientError>)
    ensures
        match response@ {
            MessageView::ErrorResponse { code, message } => result matches Err(error)
                && is_device_error(error, code, message),
            other => if message_kind(other) == expected {
                result matches Ok(accepted) && accepted@ == response@
            } else {
                result matches Err(error) && is_unexpected_response(error, expected, message_kind(other))
            },
        },
{
    let actual = response.kind();
    match response {
        VirtualInstrumentMessage::ErrorResponse { code, message } => Err(
            VirtualInstrumentClientError::Device { code, message },
        ),
        response => {
            if actual == expected {
                Ok(response)
            } else {
                Err(VirtualInstrumentClientError::UnexpectedResponse { expected, actual })
            }
        },
    }
}

/// Where an exchange stopped, or the response it decoded.
pub enum ExchangeOutcome {
    ClearInputFailed,
    EncodeFailed(VirtualMessageCodecError),
    WriteFailed,
    ReadFailed,
    InvalidFrame(VirtualFrameError),
    DecodeFailed(VirtualMessageCodecError),
    Response(MessageView),
}

/// What one exchange of `request` comes to, given the calls it made on the transport, in order:
/// discarding pending input; writing the request's frame and flushing (see `write_log_outcome`);
/// reading one frame (see `read_log_outcome`); and decoding its message. Each failure stops the
/// exchange; a request that cannot be encoded is never written. `None` for calls of another shape.
pub open spec fn exchange_outcome(request: MessageView, calls: Seq<StreamCall>) -> Option<ExchangeOutcome> {
    if calls.len() == 0 {
        None
    } else {
        match calls[0] {
            StreamCall::ClearInput { succeeded } => if !succeeded {
                if calls.len() == 1 {
                    Some(ExchangeOutcome::ClearInputFailed)
                } else {
                    None
                }
            } else {
                match message_frame(request) {
                    Err(error) => if calls.len() == 1 {
                        Some(ExchangeOutcome::EncodeFailed(error))
                    } else {
                        None
                    },
                    Ok(frame) => {
                        let bytes = encode_frame_bytes(frame);
                        let rest = calls.drop_first();
                        if rest.len() == 1 && rest[0] == (StreamCall::Write { bytes, succeeded: false }) {
                            Some(ExchangeOutcome::WriteFailed)
                        } else if rest.len() >= 2 && rest[0] == (StreamCall::Write {
                            bytes,
                            succeeded: true,
                        }) {
                            if rest[1] == (StreamCall::Flush { succeeded: false }) {
                                if rest.len() == 2 {
                                    Some(ExchangeOutcome::WriteFailed)
                                } else {
                                    None
                                }
                            } else if rest[1] == (StreamCall::Flush { succeeded: true }) {
                                match read_log_outcome(rest.skip(2)) {
                                    None => None,
                                    Some(Err(None)) => Some(ExchangeOutcome::ReadFailed),
                                    Some(Err(Some(error))) => Some(ExchangeOutcome::InvalidFrame(error)),
                                    Some(Ok(frame)) => match decode_payload(frame.kind, frame.payload) {
                                        Err(error) => Some(ExchangeOutcome::DecodeFailed(error)),
                                        Ok(response) => Some(ExchangeOutcome::Response(response)),
                                    },
                                }
                            } else {
                                None
                            }
                        } else {
                            None
                        }
                    },
                }
            },
            _ => None,
        }
    }
}

/// Whether `error` is the client's report of an exchange that came to `outcome` while a response
/// of kind `expected` was awaited: a device's error report becomes a `Device` error, a response of
/// another kind an `UnexpectedResponse` naming the kind received.
pub open spec fn reports_failure(outcome: ExchangeOutcome, expected: MessageKind, error: VirtualInstrumentClientError) -> bool {
    match outcome {
        ExchangeOutcome::ClearInputFailed => error is ClearInput,
        ExchangeOutcome::EncodeFailed(codec) => error == VirtualInstrumentClientError::Message(codec),
        ExchangeOutcome::WriteFailed | ExchangeOutcome::ReadFailed => error matches VirtualInstrumentClientError::FrameIo(
            VirtualFrameIoError::Io(_),
        ),
        ExchangeOutcome::InvalidFrame(frame) => error matches VirtualInstrumentClientError::FrameIo(
            VirtualFrameIoError::Frame(reported),
        ) && reported == frame,
        ExchangeOutcome::DecodeFailed(codec) => error == VirtualInstrumentClientError::Message(codec),
        ExchangeOutcome::Response(response) => match response {
            MessageView::ErrorResponse { code, message } => is_device_error(error, code, message),
            other => is_unexpected_response(error, expected, message_kind(other)),
        },
    }
}

/// Whether an exchange's result is what its outcome gives: the response when it is of the
/// awaited kind, else the error that reports the outcome.
pub open spec fn exchange_reports(
    outcome: Option<ExchangeOutcome>,
    expected: MessageKind,
    result: Result<VirtualInstrumentMessage, VirtualInstrumentClientError>,
) -> bool {
    match outcome {
        None => false,
        Some(ExchangeOutcome::Response(response)) => if !(response is ErrorResponse) && message_kind(
            response,
        ) == expected {
            result matches Ok(accepted) && accepted@ == response
        } else {
            result matches Err(error) && reports_failure(ExchangeOutcome::Response(response), expected, error)
        },
        Some(other) => result matches Err(error) && reports_failure(other, expected, error),
    }
}

/// The calls made after the first `count`, when the log grew from those.
pub open spec fn calls_since(log: Seq<StreamCall>, before: Seq<StreamCall>) -> Seq<StreamCall> {
    log.skip(before.len() as int)
}

/// Whether a log only grew.
pub open spec fn log_extends(log: Seq<StreamCall>, before: Seq<StreamCall>) -> bool {
    log.len() >= before.len() && log.take(before.len() as int) == before
}

/// Whether a catalog request's result is what its exchange came to.
pub open spec fn describe_reports(outcome: Option<ExchangeOutcome>, result: Result<Vec<VirtualInstrumentDescriptor>, VirtualInstrumentClientError>) -> bool {
    match outcome {
        None => false,
        Some(ExchangeOutcome::Response(MessageView::DescribeResponse { instruments })) => result matches Ok(
            list,
        ) && instrument_views(list@) == instruments,
        Some(other) => result matches Err(error) && reports_failure(other, MessageKind::DescribeResponse, error),
    }
}

/// Whether a read's or write's result is what its exchange came to, `expected` being the kind of
/// response awaited.
pub open spec fn value_reports(
    outcome: Option<ExchangeOutcome>,
    expected: MessageKind,
    result: Result<InstrumentValue, VirtualInstrumentClientError>,
) -> bool {
    match outcome {
        None => false,
        Some(ExchangeOutcome::Response(response)) => if !(response is ErrorResponse) && message_kind(
            response,
        ) == expected {
            match response {
                MessageView::ReadResponse { value } => result == Ok::<InstrumentValue, VirtualInstrumentClientError>(value),
                MessageView::WriteResponse { value } => result == Ok::<InstrumentValue, VirtualInstrumentClientError>(value),
                _ => false,
            }
        } else {
            result matches Err(error) && reports_failure(ExchangeOutcome::Response(response), expected, error)
        },
        Some(other) => result matches Err(error) && reports_failure(other, expected, error),
    }
}

/// A client that borrows its transport for one exchange at a time.
pub struct VirtualInstrumentClient<'a, T: ?Sized> {
    transport: &'a mut T,
    calls: Ghost<Seq<StreamCall>>,
}

impl<'a, T: ?Sized> VirtualInstrumentClient<'a, T> {
    /// The current state of the transport the client exchanges over.
    pub closed spec fn transport_spec(&self) -> &T {
        &*self.transport
    }

    /// Every operation the client made on its transport, in order.
    pub closed spec fn calls(&self) -> Seq<StreamCall> {
        self.calls@
    }
}

impl<'a, T: VirtualInstrumentTransport + Read + Write + ?Sized> VirtualInstrumentClient<'a, T> {
    /// A client over the transport.
    pub fn new(transport: &'a mut T) -> (client: Self)
        ensures
            client.transport_spec() == &*old(transport),
            client.calls() == Seq::<StreamCall>::empty(),
    {
        VirtualInstrumentClient { transport, calls: Ghost(Seq::empty()) }
    }

    /// Requests the instrument catalog: one exchange of a `DescribeRequest`, whose response's
    /// catalog is returned (see `exchange_outcome` and `describe_reports`).
    pub fn describe(&mut self) -> (result: Result<Vec<VirtualInstrumentDescriptor>, VirtualInstrumentClientError>)
        ensures
            log_extends(final(self).calls(), old(self).calls()),
            describe_reports(
                exchange_outcome(
                    MessageView::DescribeRequest,
                    calls_since(final(self).calls(), old(self).calls()),
                ),
                result,
            ),
    {
        let request = VirtualInstrumentMessage::DescribeRequest;
        let response = match self.exchange(&request, MessageKind::DescribeResponse) {
            Ok(response) => response,
            Err(error) => return Err(error),
        };
        match response {
            VirtualInstrumentMessage::DescribeResponse { instruments } => Ok(instruments),
            response => Err(
                VirtualInstrumentClientError::UnexpectedResponse {
                    expected: MessageKind::DescribeResponse,
                    actual: response.kind(),
                },
            ),
        }
    }

    /// Reads a parameter's value: one exchange of a `ReadRequest` for the instrument and
    /// parameter, whose response's value is returned (see `exchange_outcome` and `value_reports`).
    pub fn read(&mut self, instrument: VirtualInstrumentId, parameter: VirtualParameterId) -> (result: Result<InstrumentValue, VirtualInstrumentClientError>)
        ensures
            log_extends(final(self).calls(), old(self).calls()),
            value_reports(
                exchange_outcome(
                    MessageView::ReadRequest { instrument, parameter },
                    calls_since(final(self).calls(), old(self).calls()),
                ),
                MessageKind::ReadResponse,
                result,
            ),
    {
        let request = VirtualInstrumentMessage::ReadRequest { instrument, parameter };
        let response = match self.exchange(&request, MessageKind::ReadResponse) {
            Ok(response) => response,
            Err(error) => return Err(error),
        };
        match response {
            VirtualInstrumentMessage::ReadResponse { value } => Ok(value),
            response => Err(
                VirtualInstrumentClientError::UnexpectedResponse {
                    expected: MessageKind::ReadResponse,
                    actual: response.kind(),
                },
            ),
        }
    }

    /// Writes a parameter's value: one exchange of a `WriteRequest` for the instrument, parameter
    /// and value; the instrument answers with the value it applied, which is returned (see
    /// `exchange_outcome` and `value_reports`).
    pub fn write(&mut self, instrument: VirtualInstrumentId, parameter: VirtualParameterId, value: InstrumentValue) -> (result: Result<InstrumentValue, VirtualInstrumentClientError>)
        ensures
            log_extends(final(self).calls(), old(self).calls()),
            value_reports(
                exchange_outcome(
                    MessageView::WriteRequest { instrument, parameter, value },
                    calls_since(final(self).calls(), old(self).calls()),
                ),
                MessageKind::WriteResponse,
                result,
            ),
    {
        let request = VirtualInstrumentMessage::WriteRequest { instrument, parameter, value };
        let response = match self.exchange(&request, MessageKind::WriteResponse) {
            Ok(response) => response,
            Err(error) => return Err(error),
        };
        match response {
            VirtualInstrumentMessage::WriteResponse { value } => Ok(value),
            response => Err(
                VirtualInstrumentClientError::UnexpectedResponse {
                    expected: MessageKind::WriteResponse,
                    actual: response.kind(),
                },
            ),
        }
    }

    /// Discards pending input, sends the request, and interprets the response it reads back.
    fn exchange(&mut self, request: &VirtualInstrumentMessage, expected: MessageKind) -> (result: Result<VirtualInstrumentMessage, VirtualInstrumentClientError>)
        ensures
            log_extends(final(self).calls(), old(self).calls()),
            exchange_reports(
                exchange_outcome(request@, calls_since(final(self).calls(), old(self).calls())),
                expected,
                result,
            ),
    {
        let ghost before = self.calls@;
        let cleared = self.transport.clear_input();
        let ghost clear = StreamCall::ClearInput { succeeded: cleared is Ok };
        self.calls = Ghost(self.calls@.push(clear));
        proof {
            assert(calls_since(self.calls@, before) =~= seq![clear]);
            assert(self.calls@.take(before.len() as int) =~= before);
        }
        match cleared {
            Ok(()) => {},
            Err(error) => return Err(VirtualInstrumentClientError::ClearInput(error)),
        }
        let request_frame = match request.encode_frame() {
            Ok(frame) => frame,
            Err(error) => return Err(VirtualInstrumentClientError::Message(error)),
        };
        let (written, write_calls) = write_frame(self.transport, &request_frame);
        self.calls = Ghost(self.calls@ + write_calls@);
        let ghost bytes = encode_frame_bytes(request_frame@);
        proof {
            assert(calls_since(self.calls@, before) =~= seq![clear] + write_calls@);
            assert(self.calls@.take(before.len() as int) =~= before);
            assert(calls_since(self.calls@, before).drop_first() =~= write_calls@);
        }
        match written {
            Ok(()) => {},
            Err(error) => return Err(VirtualInstrumentClientError::FrameIo(error)),
        }
        let (read, read_calls) = read_frame(self.transport);
        self.calls = Ghost(self.calls@ + read_calls@);
        proof {
            assert(calls_since(self.calls@, before) =~= seq![clear] + write_calls@ + read_calls@);
            assert(self.calls@.take(before.len() as int) =~= before);
            assert(calls_since(self.calls@, before).drop_first().skip(2) =~= read_calls@);
            assert(calls_since(self.calls@, before).drop_first()[0] == write_calls@[0]);
            assert(calls_since(self.calls@, before).drop_first()[1] == write_calls@[1]);
        }
        let response_frame = match read {
            Ok(frame) => frame,
            Err(error) => return Err(VirtualInstrumentClientError::FrameIo(error)),
        };
        let response = match VirtualInstrumentMessage::decode_frame(&response_frame) {
            Ok(response) => response,
            Err(error) => return Err(VirtualInstrumentClientError::Message(error)),
        };
        interpret_response(expected, response)
    }
}

} // verus!
