//! Framing of the virtual-instrument request/response protocol.
//!
//! A frame is `V I`, the protocol version, a message-kind code, the payload length as a
//! little-endian `u16`, the payload, and the CRC-16/MODBUS of everything before it, little-endian.
use vstd::prelude::*;

pub mod client;
pub mod frame_io;
pub mod message;
pub mod server;

pub use client::{
    interpret_response, VirtualInstrumentClient, VirtualInstrumentClientError, VirtualInstrumentTransport,
};
pub use frame_io::{read_frame, write_frame, VirtualFrameDecoder, VirtualFrameIoError};
pub use message::{VirtualInstrumentMessage, VirtualMessageCodecError};

use crate::bytes::{le_u16, push_bytes, push_le_u16, read_le_u16, u16_le_bytes, copy_range, lemma_u16_round_trip, lemma_u16_bytes_of_value};
pub use crate::protocol::crc::calculate_crc16;
use crate::protocol::crc::crc16;
use crate::text::{decimal, hexadecimal, push_decimal, push_hexadecimal, push_str};

verus! {

pub const MAGIC: [u8; 2] = [0x56u8, 0x49u8];

pub const MAGIC_FIRST: u8 = 0x56;

pub const MAGIC_SECOND: u8 = 0x49;

pub const VERSION: u8 = 1;

pub const HEADER_LENGTH: usize = 6;

pub const CRC_LENGTH: usize = 2;

pub const MAX_PAYLOAD_LENGTH: usize = 4096;

#[derive(Clone, Copy, Debug, PartialEq, Eq, Structural)]
pub enum MessageKind {
    DescribeRequest,
    DescribeResponse,
    ReadRequest,
    ReadResponse,
    WriteRequest,
    WriteResponse,
    ErrorResponse,
}

/// The wire code of a message kind: requests below 0x80, their responses with the high bit set.
pub open spec fn kind_code(kind: MessageKind) -> u8 {
    match kind {
        MessageKind::DescribeRequest => 0x01,
        MessageKind::ReadRequest => 0x02,
        MessageKind::WriteRequest => 0x03,
        MessageKind::DescribeResponse => 0x81,
        MessageKind::ReadResponse => 0x82,
        MessageKind::WriteResponse => 0x83,
        MessageKind::ErrorResponse => 0xFF,
    }
}

/// The message kind that a wire code names, if any.
pub open spec fn kind_from_code(code: u8) -> Option<MessageKind> {
    if code == 0x01 {
        Some(MessageKind::DescribeRequest)
    } else if code == 0x02 {
        Some(MessageKind::ReadRequest)
    } else if code == 0x03 {
        Some(MessageKind::WriteRequest)
    } else if code == 0x81 {
        Some(MessageKind::DescribeResponse)
    } else if code == 0x82 {
        Some(MessageKind::ReadResponse)
    } else if code == 0x83 {
        Some(MessageKind::WriteResponse)
    } else if code == 0xFF {
        Some(MessageKind::ErrorResponse)
    } else {
        None
    }
}

/// The name of a message kind as written in descriptions.
pub open spec fn kind_name(kind: MessageKind) -> Seq<char> {
    match kind {
        MessageKind::DescribeRequest => "DescribeRequest"@,
        MessageKind::DescribeResponse => "DescribeResponse"@,
        MessageKind::ReadRequest => "ReadRequest"@,
        MessageKind::ReadResponse => "ReadResponse"@,
        MessageKind::WriteRequest => "WriteRequest"@,
        MessageKind::WriteResponse => "WriteResponse"@,
        MessageKind::ErrorResponse => "ErrorResponse"@,
    }
}

/// Every kind has a code, and the code names that kind again.
pub proof fn lemma_kind_code_round_trip(kind: MessageKind)
    ensures
        kind_from_code(kind_code(kind)) == Some(kind),
{
}

/// A code that names a kind is that kind's code.
pub proof fn lemma_kind_code_unique(code: u8)
    ensures
        kind_from_code(code) matches Some(kind) ==> kind_code(kind) == code,
{
}

impl MessageKind {
    pub fn code(self) -> (code: u8)
        ensures
            code == kind_code(self),
    {
        match self {
            MessageKind::DescribeRequest => 0x01,
            MessageKind::ReadRequest => 0x02,
            MessageKind::WriteRequest => 0x03,
            MessageKind::DescribeResponse => 0x81,
            MessageKind::ReadResponse => 0x82,
            MessageKind::WriteResponse => 0x83,
            MessageKind::ErrorResponse => 0xFF,
        }
    }

    pub fn from_code(code: u8) -> (kind: Option<MessageKind>)
        ensures
            kind == kind_from_code(code),
    {
        match code {
            0x01 => Some(MessageKind::DescribeRequest),
            0x02 => Some(MessageKind::ReadRequest),
            0x03 => Some(MessageKind::WriteRequest),
            0x81 => Some(MessageKind::DescribeResponse),
            0x82 => Some(MessageKind::ReadResponse),
            0x83 => Some(MessageKind::WriteResponse),
            0xFF => Some(MessageKind::ErrorResponse),
            _ => None,
        }
    }

    /// The kind's name, as the descriptions of unexpected responses show it.
    pub fn name(self) -> (name: &'static str)
        ensures
            name@ == kind_name(self),
    {
        match self {
            MessageKind::DescribeRequest => "DescribeRequest",
            MessageKind::DescribeResponse => "DescribeResponse",
            MessageKind::ReadRequest => "ReadRequest",
            MessageKind::ReadResponse => "ReadResponse",
            MessageKind::WriteRequest => "WriteRequest",
            MessageKind::WriteResponse => "WriteResponse",
            MessageKind::ErrorResponse => "ErrorResponse",
        }
    }
}

#[derive(Clone, Copy, Debug, PartialEq, Eq)]
pub enum VirtualFrameError {
    FrameTooShort { length: usize, minimum: usize },
    InvalidMagic { actual: [u8; 2] },
    UnsupportedVersion { actual: u8 },
    UnknownMessageKind(u8),
    PayloadTooLong { length: usize, maximum: usize },
    FrameLengthMismatch { expected: usize, actual: usize },
    CrcMismatch { expected: u16, actual: u16 },
}

/// The description of a frame error.
pub open spec fn frame_error_text(error: VirtualFrameError) -> Seq<char> {
    match error {
        VirtualFrameError::FrameTooShort { length, minimum } => "Virtual instrument frame is too short: "@
            + decimal(length as nat) + " bytes, minimum is "@ + decimal(minimum as nat),
        VirtualFrameError::InvalidMagic { actual } => "Invalid virtual instrument frame magic: "@
            + hexadecimal(actual@[0] as nat, 2) + " "@ + hexadecimal(actual@[1] as nat, 2),
        VirtualFrameError::UnsupportedVersion { actual } => "Unsupported virtual instrument protocol version: "@
            + decimal(actual as nat),
        VirtualFrameError::UnknownMessageKind(kind) => "Unknown virtual instrument message kind: 0x"@
            + hexadecimal(kind as nat, 2),
        VirtualFrameError::PayloadTooLong { length, maximum } => "Virtual instrument payload is too long: "@
            + decimal(length as nat) + " bytes, maximum is "@ + decimal(maximum as nat),
        VirtualFrameError::FrameLengthMismatch { expected, actual } => "Virtual instrument frame length mismatch: expected "@
            + decimal(expected as nat) + " bytes, received "@ + decimal(actual as nat),
        VirtualFrameError::CrcMismatch { expected, actual } => "Virtual instrument CRC mismatch: expected 0x"@
            + hexadecimal(expected as nat, 4) + ", received 0x"@ + hexadecimal(actual as nat, 4),
    }
}

impl VirtualFrameError {
    /// The human-readable description of the error.
    pub fn to_string(&self) -> (text: String)
        ensures
            text@ == frame_error_text(*self),
    {
        let mut text = String::new();
        match *self {
            VirtualFrameError::FrameTooShort { length, minimum } => {
                push_str(&mut text, "Virtual instrument frame is too short: ");
                push_decimal(&mut text, length as u64);
                push_str(&mut text, " bytes, minimum is ");
                push_decimal(&mut text, minimum as u64);
            },
            VirtualFrameError::InvalidMagic { actual } => {
                push_str(&mut text, "Invalid virtual instrument frame magic: ");
                push_hexadecimal(&mut text, actual[0] as u64, 2);
                push_str(&mut text, " ");
                push_hexadecimal(&mut text, actual[1] as u64, 2);
            },
            VirtualFrameError::UnsupportedVersion { actual } => {
                push_str(&mut text, "Unsupported virtual instrument protocol version: ");
                push_decimal(&mut text, actual as u64);
            },
            VirtualFrameError::UnknownMessageKind(kind) => {
                push_str(&mut text, "Unknown virtual instrument message kind: 0x");
                push_hexadecimal(&mut text, kind as u64, 2);
            },
            VirtualFrameError::PayloadTooLong { length, maximum } => {
                push_str(&mut text, "Virtual instrument payload is too long: ");
                push_decimal(&mut text, length as u64);
                push_str(&mut text, " bytes, maximum is ");
                push_decimal(&mut text, maximum as u64);
            },
            VirtualFrameError::FrameLengthMismatch { expected, actual } => {
                push_str(&mut text, "Virtual instrument frame length mismatch: expected ");
                push_decimal(&mut text, expected as u64);
                push_str(&mut text, " bytes, received ");
                push_decimal(&mut text, actual as u64);
            },
            VirtualFrameError::CrcMismatch { expected, actual } => {
                push_str(&mut text, "Virtual instrument CRC mismatch: expected 0x");
                push_hexadecimal(&mut text, expected as u64, 4);
                push_str(&mut text, ", received 0x");
                push_hexadecimal(&mut text, actual as u64, 4);
            },
        }
        proof {
            reveal_strlit("");
        }
        assert(text@ =~= frame_error_text(*self));
        text
    }
}


/// The abstract content of a frame: its kind and payload.
pub struct FrameView {
    pub kind: MessageKind,
    pub payload: Seq<u8>,
}

/// One request or response: a message kind and a payload of at most `MAX_PAYLOAD_LENGTH` bytes.
#[derive(Debug, PartialEq, Eq)]
pub struct VirtualInstrumentFrame {
    kind: MessageKind,
    payload: Vec<u8>,
}

impl View for VirtualInstrumentFrame {
    type V = FrameView;

    closed spec fn view(&self) -> FrameView {
        FrameView { kind: self.kind, payload: self.payload@ }
    }
}

/// The six header bytes for a kind and a payload length.
pub open spec fn header_bytes(kind: MessageKind, payload_length: u16) -> Seq<u8> {
    seq![MAGIC_FIRST, MAGIC_SECOND, VERSION, kind_code(kind)] + u16_le_bytes(payload_length)
}

/// The encoded form of a frame: header, payload, and the little-endian CRC of both.
pub open spec fn encode_frame_bytes(frame: FrameView) -> Seq<u8> {
    let body = header_bytes(frame.kind, frame.payload.len() as u16) + frame.payload;
    body + u16_le_bytes(crc16(body))
}

/// What decoding the first `HEADER_LENGTH` bytes of a frame gives: its kind and payload length.
pub open spec fn decode_header_spec(header: Seq<u8>) -> Result<(MessageKind, nat), VirtualFrameError> {
    if header.len() < HEADER_LENGTH {
        Err(VirtualFrameError::FrameTooShort { length: header.len() as usize, minimum: HEADER_LENGTH })
    } else if header[0] != MAGIC_FIRST || header[1] != MAGIC_SECOND {
        Err(VirtualFrameError::InvalidMagic { actual: [header[0], header[1]] })
    } else if header[2] != VERSION {
        Err(VirtualFrameError::UnsupportedVersion { actual: header[2] })
    } else if kind_from_code(header[3]) is None {
        Err(VirtualFrameError::UnknownMessageKind(header[3]))
    } else if le_u16(header[4], header[5]) > MAX_PAYLOAD_LENGTH {
        Err(
            VirtualFrameError::PayloadTooLong {
                length: le_u16(header[4], header[5]) as usize,
                maximum: MAX_PAYLOAD_LENGTH,
            },
        )
    } else {
        Ok((kind_from_code(header[3]).unwrap(), le_u16(header[4], header[5]) as nat))
    }
}

/// What decoding a complete frame gives.
pub open spec fn decode_frame_spec(bytes: Seq<u8>) -> Result<FrameView, VirtualFrameError> {
    if bytes.len() < HEADER_LENGTH + CRC_LENGTH {
        Err(
            VirtualFrameError::FrameTooShort {
                length: bytes.len() as usize,
                minimum: (HEADER_LENGTH + CRC_LENGTH) as usize,
            },
        )
    } else {
        match decode_header_spec(bytes.take(HEADER_LENGTH as int)) {
            Err(error) => Err(error),
            Ok((kind, payload_length)) => {
                let expected = HEADER_LENGTH + payload_length + CRC_LENGTH;
                let payload_end = HEADER_LENGTH + payload_length;
                if bytes.len() != expected {
                    Err(
                        VirtualFrameError::FrameLengthMismatch {
                            expected: expected as usize,
                            actual: bytes.len() as usize,
                        },
                    )
                } else if le_u16(bytes[payload_end], bytes[payload_end + 1]) != crc16(
                    bytes.take(payload_end),
                ) {
                    Err(
                        VirtualFrameError::CrcMismatch {
                            expected: crc16(bytes.take(payload_end)),
                            actual: le_u16(bytes[payload_end], bytes[payload_end + 1]),
                        },
                    )
                } else {
                    Ok(FrameView { kind, payload: bytes.subrange(HEADER_LENGTH as int, payload_end) })
                }
            },
        }
    }
}

/// Decoding a frame's encoding gives the frame back.
pub proof fn lemma_frame_round_trip(frame: FrameView)
    requires
        frame.payload.len() <= MAX_PAYLOAD_LENGTH,
    ensures
        decode_frame_spec(encode_frame_bytes(frame)) == Ok::<FrameView, VirtualFrameError>(frame),
{
    let length = frame.payload.len() as u16;
    let header = header_bytes(frame.kind, length);
    let body = header + frame.payload;
    let bytes = encode_frame_bytes(frame);
    lemma_u16_round_trip(length);
    lemma_u16_round_trip(crc16(body));
    lemma_kind_code_round_trip(frame.kind);
    assert(bytes.take(HEADER_LENGTH as int) =~= header);
    assert(bytes.take(HEADER_LENGTH + frame.payload.len()) =~= body);
    assert(bytes.subrange(HEADER_LENGTH as int, HEADER_LENGTH + frame.payload.len()) =~= frame.payload);
    assert(bytes[HEADER_LENGTH + frame.payload.len()] == u16_le_bytes(crc16(body))[0]);
    assert(bytes[HEADER_LENGTH + frame.payload.len() + 1] == u16_le_bytes(crc16(body))[1]);
}

/// A byte sequence that decodes is exactly the encoding of the frame it decodes to.
pub proof fn lemma_decoded_frame_is_canonical(bytes: Seq<u8>)
    ensures
        decode_frame_spec(bytes) matches Ok(frame) ==> frame.payload.len() <= MAX_PAYLOAD_LENGTH
            && encode_frame_bytes(frame) == bytes,
{
    if let Ok(frame) = decode_frame_spec(bytes) {
        let length = frame.payload.len();
        let payload_end = HEADER_LENGTH + length;
        let header = bytes.take(HEADER_LENGTH as int);
        lemma_kind_code_unique(header[3]);
        lemma_u16_bytes_of_value(header[4], header[5]);
        lemma_u16_bytes_of_value(bytes[payload_end], bytes[payload_end + 1]);
        assert(header =~= header_bytes(frame.kind, length as u16));
        assert(bytes.take(payload_end) =~= header + frame.payload);
        assert(bytes =~= bytes.take(payload_end) + seq![bytes[payload_end], bytes[payload_end + 1]]);
    }
}

impl Clone for VirtualInstrumentFrame {
    fn clone(&self) -> (copy: Self)
        ensures
            copy@ == self@,
    {
        proof {
            use_type_invariant(self);
        }
        let payload = copy_range(self.payload.as_slice(), 0, self.payload.len());
        assert(payload@ =~= self.payload@);
        VirtualInstrumentFrame { kind: self.kind, payload }
    }
}

impl VirtualInstrumentFrame {
    #[verifier::type_invariant]
    spec fn payload_fits(self) -> bool {
        self.payload.len() <= MAX_PAYLOAD_LENGTH
    }

    /// A frame of `kind` carrying `payload`; refused when the payload exceeds the maximum length.
    pub fn new(kind: MessageKind, payload: Vec<u8>) -> (result: Result<Self, VirtualFrameError>)
        ensures
            payload.len() <= MAX_PAYLOAD_LENGTH <==> result is Ok,
            result matches Ok(frame) ==> frame@ == (FrameView { kind, payload: payload@ }),
            result matches Err(error) ==> error == (VirtualFrameError::PayloadTooLong {
                length: payload.len(),
                maximum: MAX_PAYLOAD_LENGTH,
            }),
    {
        if payload.len() > MAX_PAYLOAD_LENGTH {
            return Err(
                VirtualFrameError::PayloadTooLong {
                    length: payload.len(),
                    maximum: MAX_PAYLOAD_LENGTH,
                },
            );
        }
        Ok(VirtualInstrumentFrame { kind, payload })
    }

    pub fn kind(&self) -> (kind: MessageKind)
        ensures
            kind == self@.kind,
    {
        self.kind
    }

    pub fn payload(&self) -> (payload: &[u8])
        ensures
            payload@ == self@.payload,
            payload@.len() <= MAX_PAYLOAD_LENGTH,
    {
        proof {
            use_type_invariant(self);
        }
        self.payload.as_slice()
    }

    /// The frame's encoded bytes.
    pub fn encode(&self) -> (encoded: Vec<u8>)
        ensures
            encoded@ == encode_frame_bytes(self@),
    {
        proof {
            use_type_invariant(self);
        }
        let payload_length = self.payload.len() as u16;
        let mut frame: Vec<u8> = Vec::new();
        frame.push(MAGIC_FIRST);
        frame.push(MAGIC_SECOND);
        frame.push(VERSION);
        frame.push(self.kind.code());
        push_le_u16(&mut frame, payload_length);
        push_bytes(&mut frame, self.payload.as_slice());
        assert(frame@ =~= header_bytes(self.kind, payload_length) + self.payload@);
        let crc = calculate_crc16(frame.as_slice());
        push_le_u16(&mut frame, crc);
        frame
    }

    /// Decodes one complete frame, checking its header, length and CRC in that order.
    pub fn decode(frame: &[u8]) -> (result: Result<Self, VirtualFrameError>)
        ensures
            match result {
                Ok(decoded) => decode_frame_spec(frame@) == Ok::<FrameView, VirtualFrameError>(decoded@),
                Err(error) => decode_frame_spec(frame@) == Err::<FrameView, VirtualFrameError>(error),
            },
    {
        let minimum_length = HEADER_LENGTH + CRC_LENGTH;
        if frame.len() < minimum_length {
            return Err(
                VirtualFrameError::FrameTooShort { length: frame.len(), minimum: minimum_length },
            );
        }
        let (kind, payload_length) = match decode_frame_header(&frame[0..HEADER_LENGTH]) {
            Ok(decoded) => decoded,
            Err(error) => {
                return Err(error);
            },
        };
        let expected_frame_length = HEADER_LENGTH + payload_length + CRC_LENGTH;
        if frame.len() != expected_frame_length {
            return Err(
                VirtualFrameError::FrameLengthMismatch {
                    expected: expected_frame_length,
                    actual: frame.len(),
                },
            );
        }
        let payload_end = HEADER_LENGTH + payload_length;
        let expected_crc = calculate_crc16(&frame[0..payload_end]);
        let actual_crc = read_le_u16(frame[payload_end], frame[payload_end + 1]);
        if actual_crc != expected_crc {
            return Err(VirtualFrameError::CrcMismatch { expected: expected_crc, actual: actual_crc });
        }
        let payload = copy_range(frame, HEADER_LENGTH, payload_end);
        Ok(VirtualInstrumentFrame { kind, payload })
    }
}

/// Decodes the first `HEADER_LENGTH` bytes of a frame into its kind and payload length.
pub fn decode_frame_header(header: &[u8]) -> (result: Result<(MessageKind, usize), VirtualFrameError>)
    ensures
        match result {
            Ok((kind, length)) => decode_header_spec(header@) == Ok::<(MessageKind, nat), VirtualFrameError>((kind, length as nat)),
            Err(error) => decode_header_spec(header@) == Err::<(MessageKind, nat), VirtualFrameError>(error),
        },
{
    if header.len() < HEADER_LENGTH {
        return Err(VirtualFrameError::FrameTooShort { length: header.len(), minimum: HEADER_LENGTH });
    }
    if header[0] != MAGIC_FIRST || header[1] != MAGIC_SECOND {
        return Err(VirtualFrameError::InvalidMagic { actual: [header[0], header[1]] });
    }
    if header[2] != VERSION {
        return Err(VirtualFrameError::UnsupportedVersion { actual: header[2] });
    }
    let kind = match MessageKind::from_code(header[3]) {
        Some(kind) => kind,
        None => {
            return Err(VirtualFrameError::UnknownMessageKind(header[3]));
        },
    };
    let payload_length = read_le_u16(header[4], header[5]) as usize;
    if payload_length > MAX_PAYLOAD_LENGTH {
        return Err(
            VirtualFrameError::PayloadTooLong { length: payload_length, maximum: MAX_PAYLOAD_LENGTH },
        );
    }
    Ok((kind, payload_length))
}

} // verus!
