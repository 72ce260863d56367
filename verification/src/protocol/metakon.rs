//! The Metakon register protocol: read requests, response decoding and retried reads.
use vstd::prelude::*;

use crate::bytes::{le_u16, read_le_u16};
use crate::protocol::crc::{metakon_bit_steps, metakon_crc};
use crate::serial_connection::{SerialAttempt, SerialConnectionError, SerialExchange};
use crate::text::{
    ascii_chars, decimal, hexadecimal, lemma_ascii_bytes_decode, push_decimal, push_hexadecimal,
    push_str, utf8_text,
};

verus! {

/// Calculates the one-byte CRC used by the Metakon protocol.
pub fn calculate_crc(bytes: &[u8]) -> (crc: u8)
    ensures
        crc == metakon_crc(bytes@),
{
    let mut crc: u8 = 0xFF;
    let mut index: usize = 0;
    while index < bytes.len()
        invariant
            index <= bytes.len(),
            crc == metakon_crc(bytes@.take(index as int)),
        decreases bytes.len() - index,
    {
        let ghost start = crc;
        let byte = bytes[index];
        let mut data: u8 = byte;
        let mut bit: usize = 0;
        while bit < 8
            invariant
                bit <= 8,
                metakon_bit_steps(start, byte, 8) == metakon_bit_steps(crc, data, (8 - bit) as nat),
            decreases 8 - bit,
        {
            let feedback: u8 = (data ^ crc) & 1;
            if feedback != 0 {
                crc ^= 0x18;
            }
            crc >>= 1;
            crc |= feedback << 7;
            data >>= 1;
            bit += 1;
        }
        proof {
            assert(bytes@.take(index + 1).drop_last() =~= bytes@.take(index as int));
        }
        index += 1;
    }
    proof {
        assert(bytes@.take(bytes.len() as int) =~= bytes@);
    }
    crc
}


pub const READ_COMMAND: u8 = 0x00;

pub const READ_REQUEST_LENGTH: usize = 5;

pub const MIN_READ_RESPONSE_LENGTH: usize = 7;

pub const MAX_FRAME_LENGTH: usize = 38;

pub const TYPE_MASK: u8 = 0x0F;

pub const READABLE_MASK: u8 = 0x40;

pub const WRITABLE_MASK: u8 = 0x80;

pub const READ_ATTEMPTS: usize = 3;

pub const READ_RESPONSE_OVERHEAD: usize = 6;

/// The request bytes before the checksum: device, channel, register and the read command.
pub open spec fn request_body(device: u8, channel: u8, register: u8) -> Seq<u8> {
    seq![device, channel, register, READ_COMMAND]
}

/// The encoded read request: its body followed by the body's checksum.
pub open spec fn encoded_request(device: u8, channel: u8, register: u8) -> Seq<u8> {
    request_body(device, channel, register).push(metakon_crc(request_body(device, channel, register)))
}

#[derive(Clone, Copy, Debug, PartialEq, Eq, Structural)]
pub struct ReadRegisterRequest {
    pub device: u8,
    pub channel: u8,
    pub register: u8,
}

/// A register value. `Float` and `Double` hold the IEEE-754 bit patterns of the device's value.
#[derive(Clone, Debug, PartialEq, Eq)]
pub enum RegisterValue {
    Bool(bool),
    Ubyte(u8),
    Byte(i8),
    Uint(u16),
    Int(i16),
    Ulong(u32),
    Long(i32),
    Float(u32),
    Double(u64),
    Ascii(String),
}

/// The abstract content of a register value.
pub enum RegisterValueView {
    Bool(bool),
    Ubyte(u8),
    Byte(i8),
    Uint(u16),
    Int(i16),
    Ulong(u32),
    Long(i32),
    Float(u32),
    Double(u64),
    Ascii(Seq<char>),
}

impl View for RegisterValue {
    type V = RegisterValueView;

    open spec fn view(&self) -> RegisterValueView {
        match self {
            RegisterValue::Bool(v) => RegisterValueView::Bool(*v),
            RegisterValue::Ubyte(v) => RegisterValueView::Ubyte(*v),
            RegisterValue::Byte(v) => RegisterValueView::Byte(*v),
            RegisterValue::Uint(v) => RegisterValueView::Uint(*v),
            RegisterValue::Int(v) => RegisterValueView::Int(*v),
            RegisterValue::Ulong(v) => RegisterValueView::Ulong(*v),
            RegisterValue::Long(v) => RegisterValueView::Long(*v),
            RegisterValue::Float(v) => RegisterValueView::Float(*v),
            RegisterValue::Double(v) => RegisterValueView::Double(*v),
            RegisterValue::Ascii(v) => RegisterValueView::Ascii(v@),
        }
    }
}

#[derive(Clone, Copy, Debug, PartialEq, Eq)]
pub enum ReadResponseError {
    FrameTooShort(usize),
    FrameTooLong(usize),
    CrcMismatch { expected: u8, actual: u8 },
    UnexpectedDevice { expected: u8, actual: u8 },
    UnexpectedChannel { expected: u8, actual: u8 },
    UnexpectedRegister { expected: u8, actual: u8 },
    UnexpectedCommand { expected: u8, actual: u8 },
    UnsupportedType(u8),
    InvalidDataLength { type_code: u8, expected: usize, actual: usize },
    InvalidBool(u8),
    InvalidAscii,
}

/// The decoded content of a read response.
pub struct ReadRegisterResponseView {
    pub device: u8,
    pub channel: u8,
    pub register: u8,
    pub readable: bool,
    pub writable: bool,
    pub value: RegisterValueView,
}

/// A decoded read response.
#[derive(Clone, Debug, PartialEq, Eq)]
pub struct ReadRegisterResponse {
    device: u8,
    channel: u8,
    register: u8,
    readable: bool,
    writable: bool,
    value: RegisterValue,
}

impl View for ReadRegisterResponse {
    type V = ReadRegisterResponseView;

    closed spec fn view(&self) -> ReadRegisterResponseView {
        ReadRegisterResponseView {
            device: self.device,
            channel: self.channel,
            register: self.register,
            readable: self.readable,
            writable: self.writable,
            value: self.value@,
        }
    }
}

/// The value of four little-endian bytes.
pub open spec fn le_u32(data: Seq<u8>) -> u32 {
    ((data[0] as u32) | ((data[1] as u32) << 8u32) | ((data[2] as u32) << 16u32) | ((
    data[3] as u32) << 24u32)) as u32
}

/// The little-endian value of the first eight bytes.
pub open spec fn le_u64_of(data: Seq<u8>) -> u64 {
    crate::bytes::le_u64(data)
}

/// What an ASCIIZ data field decodes to: at most 32 bytes, ending in the only zero byte,
/// with every other byte below 0x80.
pub open spec fn parse_ascii_spec(data: Seq<u8>) -> Result<RegisterValueView, ReadResponseError> {
    if data.len() == 0 || data.len() > 32 || data.last() != 0 {
        Err(ReadResponseError::InvalidAscii)
    } else if exists|i: int| 0 <= i < data.len() - 1 && (data[i] >= 0x80 || data[i] == 0) {
        Err(ReadResponseError::InvalidAscii)
    } else {
        Ok(RegisterValueView::Ascii(ascii_chars(data.take(data.len() - 1))))
    }
}

/// The data length that a fixed-size type code requires, if the code names one.
pub open spec fn fixed_data_length(type_code: u8) -> Option<nat> {
    if type_code <= 2 {
        Some(1)
    } else if type_code <= 4 {
        Some(2)
    } else if type_code <= 7 {
        Some(4)
    } else if type_code == 8 {
        Some(8)
    } else {
        None
    }
}

/// What the data bytes of a response decode to under a type code.
pub open spec fn parse_register_value_spec(type_code: u8, data: Seq<u8>) -> Result<
    RegisterValueView,
    ReadResponseError,
> {
    if type_code == 9 {
        parse_ascii_spec(data)
    } else if type_code > 9 {
        Err(ReadResponseError::UnsupportedType(type_code))
    } else if data.len() != fixed_data_length(type_code).unwrap() {
        Err(
            ReadResponseError::InvalidDataLength {
                type_code,
                expected: fixed_data_length(type_code).unwrap() as usize,
                actual: data.len() as usize,
            },
        )
    } else if type_code == 0 {
        if data[0] == 0x00 {
            Ok(RegisterValueView::Bool(false))
        } else if data[0] == 0xFF {
            Ok(RegisterValueView::Bool(true))
        } else {
            Err(ReadResponseError::InvalidBool(data[0]))
        }
    } else if type_code == 1 {
        Ok(RegisterValueView::Ubyte(data[0]))
    } else if type_code == 2 {
        Ok(RegisterValueView::Byte(data[0] as i8))
    } else if type_code == 3 {
        Ok(RegisterValueView::Uint(le_u16(data[0], data[1])))
    } else if type_code == 4 {
        Ok(RegisterValueView::Int(le_u16(data[0], data[1]) as i16))
    } else if type_code == 5 {
        Ok(RegisterValueView::Ulong(le_u32(data)))
    } else if type_code == 6 {
        Ok(RegisterValueView::Long(le_u32(data) as i32))
    } else if type_code == 7 {
        Ok(RegisterValueView::Float(le_u32(data)))
    } else {
        Ok(RegisterValueView::Double(le_u64_of(data)))
    }
}

/// What decoding a response frame gives for a request: length, checksum, echoed address and
/// command are checked in that order before the value is decoded.
pub open spec fn decode_response_spec(request: ReadRegisterRequest, frame: Seq<u8>) -> Result<
    ReadRegisterResponseView,
    ReadResponseError,
> {
    let last = frame.len() - 1;
    if frame.len() < MIN_READ_RESPONSE_LENGTH {
        Err(ReadResponseError::FrameTooShort(frame.len() as usize))
    } else if frame.len() > MAX_FRAME_LENGTH {
        Err(ReadResponseError::FrameTooLong(frame.len() as usize))
    } else if frame[last] != metakon_crc(frame.take(last)) {
        Err(ReadResponseError::CrcMismatch { expected: metakon_crc(frame.take(last)), actual: frame[last] })
    } else if frame[0] != request.device {
        Err(ReadResponseError::UnexpectedDevice { expected: request.device, actual: frame[0] })
    } else if frame[1] != request.channel {
        Err(ReadResponseError::UnexpectedChannel { expected: request.channel, actual: frame[1] })
    } else if frame[2] != request.register {
        Err(ReadResponseError::UnexpectedRegister { expected: request.register, actual: frame[2] })
    } else if frame[3] != READ_COMMAND {
        Err(ReadResponseError::UnexpectedCommand { expected: READ_COMMAND, actual: frame[3] })
    } else {
        match parse_register_value_spec(frame[4] & TYPE_MASK, frame.subrange(5, last)) {
            Err(error) => Err(error),
            Ok(value) => Ok(
                ReadRegisterResponseView {
                    device: frame[0],
                    channel: frame[1],
                    register: frame[2],
                    readable: frame[4] & READABLE_MASK != 0,
                    writable: frame[4] & WRITABLE_MASK != 0,
                    value,
                },
            ),
        }
    }
}

/// Two data bytes read as an unsigned 16-bit number are little-endian: the first is the low
/// byte, the second the high byte.
proof fn lemma_two_bytes_little_endian(low: u8, high: u8)
    ensures
        le_u16(low, high) as int == low as int + 256 * high as int,
{
    assert(((low as u16) | ((high as u16) << 8u16)) as u16 == (low as u16) + 256u16 * (high as
        u16)) by (bit_vector);
}

/// Four data bytes read as an unsigned 32-bit number are little-endian.
proof fn lemma_four_bytes_little_endian(data: Seq<u8>)
    requires
        data.len() == 4,
    ensures
        le_u32(data) as int == data[0] as int + 256 * data[1] as int + 65536 * data[2] as int
            + 16777216 * data[3] as int,
{
    let (b0, b1, b2, b3) = (data[0], data[1], data[2], data[3]);
    assert(((b0 as u32) | ((b1 as u32) << 8u32) | ((b2 as u32) << 16u32) | ((b3 as u32) << 24u32))
        as u32 == (b0 as u32) + 256u32 * (b1 as u32) + 65536u32 * (b2 as u32) + 16777216u32 * (
    b3 as u32)) by (bit_vector);
}

/// Eight data bytes read as an unsigned 64-bit number are little-endian.
proof fn lemma_eight_bytes_little_endian(data: Seq<u8>)
    requires
        data.len() == 8,
    ensures
        le_u64_of(data) as int == data[0] as int + 0x100 * data[1] as int + 0x1_0000 * data[2] as int
            + 0x100_0000 * data[3] as int + 0x1_0000_0000 * data[4] as int + 0x100_0000_0000
            * data[5] as int + 0x1_0000_0000_0000 * data[6] as int + 0x100_0000_0000_0000
            * data[7] as int,
{
    let (b0, b1, b2, b3) = (data[0], data[1], data[2], data[3]);
    let (b4, b5, b6, b7) = (data[4], data[5], data[6], data[7]);
    assert(((b0 as u64) | ((b1 as u64) << 8u64) | ((b2 as u64) << 16u64) | ((b3 as u64) << 24u64)
        | ((b4 as u64) << 32u64) | ((b5 as u64) << 40u64) | ((b6 as u64) << 48u64) | ((b7 as u64)
        << 56u64)) as u64 == (b0 as u64) + 0x100u64 * (b1 as u64) + 0x1_0000u64 * (b2 as u64)
        + 0x100_0000u64 * (b3 as u64) + 0x1_0000_0000u64 * (b4 as u64) + 0x100_0000_0000u64 * (
    b5 as u64) + 0x1_0000_0000_0000u64 * (b6 as u64) + 0x100_0000_0000_0000u64 * (b7 as u64))
        by (bit_vector);
}

/// The data of every fixed-size register type is little-endian: the first byte is the least
/// significant and each later byte weighs 256 times the one before. Signed types read the same
/// bits as two's complement; a boolean is `0x00` or `0xFF`; a data field of another length than
/// the type's is refused.
pub proof fn lemma_fixed_size_values_little_endian(data: Seq<u8>)
    ensures
        data.len() == 1 ==> parse_register_value_spec(1, data) == Ok::<RegisterValueView, ReadResponseError>(
            RegisterValueView::Ubyte(data[0]),
        ) && parse_register_value_spec(2, data) == Ok::<RegisterValueView, ReadResponseError>(
            RegisterValueView::Byte(data[0] as i8),
        ) && parse_register_value_spec(0, data) == (if data[0] == 0x00 {
            Ok::<RegisterValueView, ReadResponseError>(RegisterValueView::Bool(false))
        } else if data[0] == 0xFF {
            Ok::<RegisterValueView, ReadResponseError>(RegisterValueView::Bool(true))
        } else {
            Err::<RegisterValueView, ReadResponseError>(ReadResponseError::InvalidBool(data[0]))
        }),
        data.len() == 2 ==> parse_register_value_spec(3, data) == Ok::<RegisterValueView, ReadResponseError>(
            RegisterValueView::Uint((data[0] as int + 256 * data[1] as int) as u16),
        ) && parse_register_value_spec(4, data) == Ok::<RegisterValueView, ReadResponseError>(
            RegisterValueView::Int(((data[0] as int + 256 * data[1] as int) as u16) as i16),
        ),
        data.len() == 4 ==> {
            let unsigned = (data[0] as int + 256 * data[1] as int + 65536 * data[2] as int + 16777216
                * data[3] as int) as u32;
            &&& parse_register_value_spec(5, data) == Ok::<RegisterValueView, ReadResponseError>(
                RegisterValueView::Ulong(unsigned),
            )
            &&& parse_register_value_spec(6, data) == Ok::<RegisterValueView, ReadResponseError>(
                RegisterValueView::Long(unsigned as i32),
            )
            &&& parse_register_value_spec(7, data) == Ok::<RegisterValueView, ReadResponseError>(
                RegisterValueView::Float(unsigned),
            )
        },
        data.len() == 8 ==> parse_register_value_spec(8, data) == Ok::<RegisterValueView, ReadResponseError>(
            RegisterValueView::Double(
                (data[0] as int + 0x100 * data[1] as int + 0x1_0000 * data[2] as int + 0x100_0000
                    * data[3] as int + 0x1_0000_0000 * data[4] as int + 0x100_0000_0000
                    * data[5] as int + 0x1_0000_0000_0000 * data[6] as int + 0x100_0000_0000_0000
                    * data[7] as int) as u64,
            ),
        ),
        data.len() != 2 ==> parse_register_value_spec(3, data) == Err::<RegisterValueView, ReadResponseError>(
            ReadResponseError::InvalidDataLength { type_code: 3, expected: 2, actual: data.len() as usize },
        ),
        data.len() != 4 ==> parse_register_value_spec(5, data) == Err::<RegisterValueView, ReadResponseError>(
            ReadResponseError::InvalidDataLength { type_code: 5, expected: 4, actual: data.len() as usize },
        ),
        data.len() != 8 ==> parse_register_value_spec(8, data) == Err::<RegisterValueView, ReadResponseError>(
            ReadResponseError::InvalidDataLength { type_code: 8, expected: 8, actual: data.len() as usize },
        ),
{
    if data.len() == 2 {
        lemma_two_bytes_little_endian(data[0], data[1]);
    }
    if data.len() == 4 {
        lemma_four_bytes_little_endian(data);
    }
    if data.len() == 8 {
        lemma_eight_bytes_little_endian(data);
    }
}

/// A well-formed answer to a read whose type code is 3 or 4 carries two data bytes, the low byte
/// first: type 3 is the unsigned value `b0 + 256 * b1`, type 4 the same 16 bits read as signed.
/// The echoed address and the access flags come from the frame.
pub proof fn lemma_sixteen_bit_response_little_endian(request: ReadRegisterRequest, frame: Seq<u8>)
    requires
        frame.len() == 8,
        frame[7] == metakon_crc(frame.take(7)),
        frame[0] == request.device,
        frame[1] == request.channel,
        frame[2] == request.register,
        frame[3] == READ_COMMAND,
        frame[4] & TYPE_MASK == 3 || frame[4] & TYPE_MASK == 4,
    ensures
        decode_response_spec(request, frame) matches Ok(response) && response.device
            == request.device && response.channel == request.channel && response.register
            == request.register && response.readable == (frame[4] & READABLE_MASK != 0)
            && response.writable == (frame[4] & WRITABLE_MASK != 0) && response.value == if frame[4]
            & TYPE_MASK == 3 {
            RegisterValueView::Uint((frame[5] as int + 256 * frame[6] as int) as u16)
        } else {
            RegisterValueView::Int(((frame[5] as int + 256 * frame[6] as int) as u16) as i16)
        },
{
    let data = frame.subrange(5, 7);
    assert(data[0] == frame[5] && data[1] == frame[6]);
    assert(data.len() == 2);
    lemma_two_bytes_little_endian(frame[5], frame[6]);
}

impl ReadRegisterRequest {
    pub fn new(device: u8, channel: u8, register: u8) -> (request: Self)
        ensures
            request == (ReadRegisterRequest { device, channel, register }),
    {
        ReadRegisterRequest { device, channel, register }
    }

    /// The five request bytes: device, channel, register, read command, checksum.
    pub fn encode(self) -> (frame: [u8; 5])
        ensures
            frame@ == encoded_request(self.device, self.channel, self.register),
    {
        let mut frame: [u8; 5] = [self.device, self.channel, self.register, READ_COMMAND, 0];
        let crc = calculate_crc(&frame[0..READ_REQUEST_LENGTH - 1]);
        assert(frame@.subrange(0, 4) =~= request_body(self.device, self.channel, self.register));
        frame.set(READ_REQUEST_LENGTH - 1, crc);
        assert(frame@ =~= encoded_request(self.device, self.channel, self.register));
        frame
    }

    /// Decodes the response to this request.
    pub fn decode_response(self, frame: &[u8]) -> (result: Result<ReadRegisterResponse, ReadResponseError>)
        ensures
            match result {
                Ok(response) => decode_response_spec(self, frame@) == Ok::<ReadRegisterResponseView, ReadResponseError>(response@),
                Err(error) => decode_response_spec(self, frame@) == Err::<ReadRegisterResponseView, ReadResponseError>(error),
            },
    {
        if frame.len() < MIN_READ_RESPONSE_LENGTH {
            return Err(ReadResponseError::FrameTooShort(frame.len()));
        }
        if frame.len() > MAX_FRAME_LENGTH {
            return Err(ReadResponseError::FrameTooLong(frame.len()));
        }
        let payload_end = frame.len() - 1;
        let expected_crc = calculate_crc(&frame[0..payload_end]);
        let actual_crc = frame[payload_end];
        assert(frame@.subrange(0, payload_end as int) =~= frame@.take(payload_end as int));
        if actual_crc != expected_crc {
            return Err(ReadResponseError::CrcMismatch { expected: expected_crc, actual: actual_crc });
        }
        if frame[0] != self.device {
            return Err(ReadResponseError::UnexpectedDevice { expected: self.device, actual: frame[0] });
        }
        if frame[1] != self.channel {
            return Err(ReadResponseError::UnexpectedChannel { expected: self.channel, actual: frame[1] });
        }
        if frame[2] != self.register {
            return Err(ReadResponseError::UnexpectedRegister { expected: self.register, actual: frame[2] });
        }
        if frame[3] != READ_COMMAND {
            return Err(ReadResponseError::UnexpectedCommand { expected: READ_COMMAND, actual: frame[3] });
        }
        let type_byte = frame[4];
        let type_code = type_byte & TYPE_MASK;
        let value = match parse_register_value(type_code, &frame[5..payload_end]) {
            Ok(value) => value,
            Err(error) => {
                return Err(error);
            },
        };
        Ok(
            ReadRegisterResponse {
                device: frame[0],
                channel: frame[1],
                register: frame[2],
                readable: type_byte & READABLE_MASK != 0,
                writable: type_byte & WRITABLE_MASK != 0,
                value,
            },
        )
    }
}

impl ReadRegisterResponse {
    pub fn device(&self) -> (device: u8)
        ensures
            device == self@.device,
    {
        self.device
    }

    pub fn channel(&self) -> (channel: u8)
        ensures
            channel == self@.channel,
    {
        self.channel
    }

    pub fn register(&self) -> (register: u8)
        ensures
            register == self@.register,
    {
        self.register
    }

    pub fn readable(&self) -> (readable: bool)
        ensures
            readable == self@.readable,
    {
        self.readable
    }

    pub fn writable(&self) -> (writable: bool)
        ensures
            writable == self@.writable,
    {
        self.writable
    }

    pub fn value(&self) -> (value: &RegisterValue)
        ensures
            value@ == self@.value,
    {
        &self.value
    }

    pub fn into_value(self) -> (value: RegisterValue)
        ensures
            value@ == self@.value,
    {
        self.value
    }
}

fn require_data_length(type_code: u8, data: &[u8], expected: usize) -> (result: Result<(), ReadResponseError>)
    ensures
        result is Ok <==> data@.len() == expected,
        result matches Err(error) ==> error == (ReadResponseError::InvalidDataLength {
            type_code,
            expected,
            actual: data@.len() as usize,
        }),
{
    if data.len() != expected {
        return Err(ReadResponseError::InvalidDataLength { type_code, expected, actual: data.len() });
    }
    Ok(())
}

fn read_le_u32(data: &[u8]) -> (value: u32)
    requires
        data@.len() == 4,
    ensures
        value == le_u32(data@),
{
    (data[0] as u32) | ((data[1] as u32) << 8u32) | ((data[2] as u32) << 16u32) | ((data[3] as u32)
        << 24u32)
}

fn parse_register_value(type_code: u8, data: &[u8]) -> (result: Result<RegisterValue, ReadResponseError>)
    ensures
        match result {
            Ok(value) => parse_register_value_spec(type_code, data@) == Ok::<RegisterValueView, ReadResponseError>(value@),
            Err(error) => parse_register_value_spec(type_code, data@) == Err::<RegisterValueView, ReadResponseError>(error),
        },
{
    match type_code {
        0 => {
            require_data_length(type_code, data, 1)?;
            if data[0] == 0x00 {
                Ok(RegisterValue::Bool(false))
            } else if data[0] == 0xFF {
                Ok(RegisterValue::Bool(true))
            } else {
                Err(ReadResponseError::InvalidBool(data[0]))
            }
        },
        1 => {
            require_data_length(type_code, data, 1)?;
            Ok(RegisterValue::Ubyte(data[0]))
        },
        2 => {
            require_data_length(type_code, data, 1)?;
            Ok(RegisterValue::Byte(data[0] as i8))
        },
        3 => {
            require_data_length(type_code, data, 2)?;
            Ok(RegisterValue::Uint(read_le_u16(data[0], data[1])))
        },
        4 => {
            require_data_length(type_code, data, 2)?;
            Ok(RegisterValue::Int(read_le_u16(data[0], data[1]) as i16))
        },
        5 => {
            require_data_length(type_code, data, 4)?;
            Ok(RegisterValue::Ulong(read_le_u32(data)))
        },
        6 => {
            require_data_length(type_code, data, 4)?;
            Ok(RegisterValue::Long(read_le_u32(data) as i32))
        },
        7 => {
            require_data_length(type_code, data, 4)?;
            Ok(RegisterValue::Float(read_le_u32(data)))
        },
        8 => {
            require_data_length(type_code, data, 8)?;
            let value = crate::bytes::read_le_u64(data, 0);
            assert(data@.subrange(0, 8) =~= data@);
            Ok(RegisterValue::Double(value))
        },
        9 => parse_ascii(data),
        _ => Err(ReadResponseError::UnsupportedType(type_code)),
    }
}

fn parse_ascii(data: &[u8]) -> (result: Result<RegisterValue, ReadResponseError>)
    ensures
        match result {
            Ok(value) => parse_ascii_spec(data@) == Ok::<RegisterValueView, ReadResponseError>(value@),
            Err(error) => parse_ascii_spec(data@) == Err::<RegisterValueView, ReadResponseError>(error),
        },
{
    if data.len() == 0 || data.len() > 32 || data[data.len() - 1] != 0 {
        return Err(ReadResponseError::InvalidAscii);
    }
    let text_length = data.len() - 1;
    let mut index: usize = 0;
    while index < text_length
        invariant
            text_length == data@.len() - 1,
            index <= text_length,
            forall|i: int| 0 <= i < index ==> data@[i] < 0x80 && data@[i] != 0,
        decreases text_length - index,
    {
        if data[index] >= 0x80 || data[index] == 0 {
            return Err(ReadResponseError::InvalidAscii);
        }
        index += 1;
    }
    let text_bytes = &data[0..text_length];
    proof {
        assert(text_bytes@ =~= data@.take(text_length as int));
        lemma_ascii_bytes_decode(text_bytes@);
    }
    match utf8_text(text_bytes) {
        Some(text) => Ok(RegisterValue::Ascii(text)),
        None => Err(ReadResponseError::InvalidAscii),
    }
}


#[derive(Clone, Copy, Debug, PartialEq, Eq, Structural)]
pub enum RegisterDataType {
    Bool,
    Ubyte,
    Byte,
    Uint,
    Int,
    Ulong,
    Long,
    Float,
    Double,
}

/// The number of data bytes a response of this type carries.
pub open spec fn data_length_spec(data_type: RegisterDataType) -> nat {
    match data_type {
        RegisterDataType::Bool | RegisterDataType::Ubyte | RegisterDataType::Byte => 1,
        RegisterDataType::Uint | RegisterDataType::Int => 2,
        RegisterDataType::Ulong | RegisterDataType::Long | RegisterDataType::Float => 4,
        RegisterDataType::Double => 8,
    }
}

/// The name of a register data type.
pub open spec fn data_type_name(data_type: RegisterDataType) -> Seq<char> {
    match data_type {
        RegisterDataType::Bool => "Bool"@,
        RegisterDataType::Ubyte => "Ubyte"@,
        RegisterDataType::Byte => "Byte"@,
        RegisterDataType::Uint => "Uint"@,
        RegisterDataType::Int => "Int"@,
        RegisterDataType::Ulong => "Ulong"@,
        RegisterDataType::Long => "Long"@,
        RegisterDataType::Float => "Float"@,
        RegisterDataType::Double => "Double"@,
    }
}

/// The name of the type a register value has.
pub open spec fn value_type_name(value: RegisterValueView) -> Seq<char> {
    match value {
        RegisterValueView::Bool(_) => "Bool"@,
        RegisterValueView::Ubyte(_) => "Ubyte"@,
        RegisterValueView::Byte(_) => "Byte"@,
        RegisterValueView::Uint(_) => "Uint"@,
        RegisterValueView::Int(_) => "Int"@,
        RegisterValueView::Ulong(_) => "Ulong"@,
        RegisterValueView::Long(_) => "Long"@,
        RegisterValueView::Float(_) => "Float"@,
        RegisterValueView::Double(_) => "Double"@,
        RegisterValueView::Ascii(_) => "ASCIIZ"@,
    }
}

/// Whether a value has the given data type.
pub open spec fn value_has_type(data_type: RegisterDataType, value: RegisterValueView) -> bool {
    match (data_type, value) {
        (RegisterDataType::Bool, RegisterValueView::Bool(_)) => true,
        (RegisterDataType::Ubyte, RegisterValueView::Ubyte(_)) => true,
        (RegisterDataType::Byte, RegisterValueView::Byte(_)) => true,
        (RegisterDataType::Uint, RegisterValueView::Uint(_)) => true,
        (RegisterDataType::Int, RegisterValueView::Int(_)) => true,
        (RegisterDataType::Ulong, RegisterValueView::Ulong(_)) => true,
        (RegisterDataType::Long, RegisterValueView::Long(_)) => true,
        (RegisterDataType::Float, RegisterValueView::Float(_)) => true,
        (RegisterDataType::Double, RegisterValueView::Double(_)) => true,
        _ => false,
    }
}

impl RegisterDataType {
    pub fn data_length(self) -> (length: usize)
        ensures
            length == data_length_spec(self),
    {
        match self {
            RegisterDataType::Bool | RegisterDataType::Ubyte | RegisterDataType::Byte => 1,
            RegisterDataType::Uint | RegisterDataType::Int => 2,
            RegisterDataType::Ulong | RegisterDataType::Long | RegisterDataType::Float => 4,
            RegisterDataType::Double => 8,
        }
    }

    /// The length of a complete read response carrying a value of this type.
    pub fn response_length(self) -> (length: usize)
        ensures
            length == READ_RESPONSE_OVERHEAD + data_length_spec(self),
    {
        READ_RESPONSE_OVERHEAD + self.data_length()
    }

    pub fn name(self) -> (name: &'static str)
        ensures
            name@ == data_type_name(self),
    {
        match self {
            RegisterDataType::Bool => "Bool",
            RegisterDataType::Ubyte => "Ubyte",
            RegisterDataType::Byte => "Byte",
            RegisterDataType::Uint => "Uint",
            RegisterDataType::Int => "Int",
            RegisterDataType::Ulong => "Ulong",
            RegisterDataType::Long => "Long",
            RegisterDataType::Float => "Float",
            RegisterDataType::Double => "Double",
        }
    }

    pub fn matches_value(self, value: &RegisterValue) -> (matches: bool)
        ensures
            matches == value_has_type(self, value@),
    {
        match (self, value) {
            (RegisterDataType::Bool, RegisterValue::Bool(_)) => true,
            (RegisterDataType::Ubyte, RegisterValue::Ubyte(_)) => true,
            (RegisterDataType::Byte, RegisterValue::Byte(_)) => true,
            (RegisterDataType::Uint, RegisterValue::Uint(_)) => true,
            (RegisterDataType::Int, RegisterValue::Int(_)) => true,
            (RegisterDataType::Ulong, RegisterValue::Ulong(_)) => true,
            (RegisterDataType::Long, RegisterValue::Long(_)) => true,
            (RegisterDataType::Float, RegisterValue::Float(_)) => true,
            (RegisterDataType::Double, RegisterValue::Double(_)) => true,
            _ => false,
        }
    }
}

fn register_value_type_name(value: &RegisterValue) -> (name: &'static str)
    ensures
        name@ == value_type_name(value@),
{
    match value {
        RegisterValue::Bool(_) => "Bool",
        RegisterValue::Ubyte(_) => "Ubyte",
        RegisterValue::Byte(_) => "Byte",
        RegisterValue::Uint(_) => "Uint",
        RegisterValue::Int(_) => "Int",
        RegisterValue::Ulong(_) => "Ulong",
        RegisterValue::Long(_) => "Long",
        RegisterValue::Float(_) => "Float",
        RegisterValue::Double(_) => "Double",
        RegisterValue::Ascii(_) => "ASCIIZ",
    }
}

/// Why one read attempt failed.
#[derive(Clone, Debug, PartialEq, Eq)]
pub enum ReadRegisterAttemptError {
    Serial(SerialConnectionError),
    InvalidResponse(ReadResponseError),
    UnexpectedValueType { expected: RegisterDataType, actual: &'static str },
}

/// A register read that failed on every attempt; holds the last attempt's error.
#[derive(Clone, Debug, PartialEq, Eq)]
pub struct ReadRegisterError {
    attempts: usize,
    last_error: ReadRegisterAttemptError,
}

impl ReadRegisterError {
    pub closed spec fn attempts_spec(&self) -> usize {
        self.attempts
    }

    pub closed spec fn last_error_spec(&self) -> ReadRegisterAttemptError {
        self.last_error
    }

    pub fn attempts(&self) -> (attempts: usize)
        ensures
            attempts == self.attempts_spec(),
    {
        self.attempts
    }

    pub fn last_error(&self) -> (error: &ReadRegisterAttemptError)
        ensures
            *error == self.last_error_spec(),
    {
        &self.last_error
    }
}

pub type ReadIntRegisterError = ReadRegisterError;

/// Whether an exchange that returned `response` counts as a successful read of `value`.
pub open spec fn attempt_succeeds_with(
    request: ReadRegisterRequest,
    expected_type: RegisterDataType,
    response: Seq<u8>,
    value: RegisterValueView,
) -> bool {
    &&& decode_response_spec(request, response) matches Ok(decoded)
    &&& decoded.value == value
    &&& value_has_type(expected_type, value)
}

/// Whether some response to `request` is a successful read of `value`.
pub open spec fn read_can_yield(
    request: ReadRegisterRequest,
    expected_type: RegisterDataType,
    value: RegisterValueView,
) -> bool {
    exists|response: Seq<u8>| #[trigger] attempt_succeeds_with(request, expected_type, response, value)
}

/// Interprets the bytes that one exchange returned: the decoded value when it has the expected type.
pub fn interpret_read_response(
    request: ReadRegisterRequest,
    expected_type: RegisterDataType,
    response_bytes: &[u8],
) -> (result: Result<RegisterValue, ReadRegisterAttemptError>)
    ensures
        match result {
            Ok(value) => attempt_succeeds_with(request, expected_type, response_bytes@, value@),
            Err(ReadRegisterAttemptError::InvalidResponse(error)) => decode_response_spec(request, response_bytes@)
                == Err::<ReadRegisterResponseView, ReadResponseError>(error),
            Err(ReadRegisterAttemptError::UnexpectedValueType { expected, actual }) => {
                &&& expected == expected_type
                &&& decode_response_spec(request, response_bytes@) matches Ok(decoded)
                &&& !value_has_type(expected_type, decoded.value)
                &&& actual@ == value_type_name(decoded.value)
            },
            Err(ReadRegisterAttemptError::Serial(_)) => false,
        },
{
    let response = match request.decode_response(response_bytes) {
        Ok(response) => response,
        Err(error) => {
            return Err(ReadRegisterAttemptError::InvalidResponse(error));
        },
    };
    let value = response.into_value();
    if !expected_type.matches_value(&value) {
        return Err(
            ReadRegisterAttemptError::UnexpectedValueType {
                expected: expected_type,
                actual: register_value_type_name(&value),
            },
        );
    }
    Ok(value)
}

/// Whether an attempt's result is what its exchange gives: the request's encoding was sent and a
/// response of the expected type's length asked for; a failed exchange is a `Serial` error, and
/// a response is decoded as `interpret_read_response` states.
pub open spec fn attempt_reports(
    request: ReadRegisterRequest,
    expected_type: RegisterDataType,
    attempt: SerialAttempt,
    result: Result<RegisterValue, ReadRegisterAttemptError>,
) -> bool {
    &&& attempt.request == encoded_request(request.device, request.channel, request.register)
    &&& attempt.response_length == READ_RESPONSE_OVERHEAD + data_length_spec(expected_type)
    &&& match attempt.response {
        None => result is Err && result->Err_0 is Serial,
        Some(bytes) => read_interpretation(request, expected_type, bytes, result),
    }
}

/// Whether `result` is what the bytes of one response give (see `interpret_read_response`).
pub open spec fn read_interpretation(
    request: ReadRegisterRequest,
    expected_type: RegisterDataType,
    bytes: Seq<u8>,
    result: Result<RegisterValue, ReadRegisterAttemptError>,
) -> bool {
    match result {
        Ok(value) => attempt_succeeds_with(request, expected_type, bytes, value@),
        Err(ReadRegisterAttemptError::InvalidResponse(error)) => decode_response_spec(request, bytes)
            == Err::<ReadRegisterResponseView, ReadResponseError>(error),
        Err(ReadRegisterAttemptError::UnexpectedValueType { expected, actual }) => {
            &&& expected == expected_type
            &&& decode_response_spec(request, bytes) matches Ok(decoded)
            &&& !value_has_type(expected_type, decoded.value)
            &&& actual@ == value_type_name(decoded.value)
        },
        Err(ReadRegisterAttemptError::Serial(_)) => false,
    }
}

/// Whether an attempt failed: its exchange failed, or its response is not a valid value of the
/// expected type.
pub open spec fn attempt_failed(request: ReadRegisterRequest, expected_type: RegisterDataType, attempt: SerialAttempt) -> bool {
    &&& attempt.request == encoded_request(request.device, request.channel, request.register)
    &&& attempt.response_length == READ_RESPONSE_OVERHEAD + data_length_spec(expected_type)
    &&& match attempt.response {
        None => true,
        Some(bytes) => forall|value: RegisterValueView| !#[trigger] attempt_succeeds_with(request, expected_type, bytes, value),
    }
}

/// The retry rule over the attempts made, in order: at most `READ_ATTEMPTS`, every one but the
/// last failed, and the reading stops at the first success. A value is the last attempt's; an
/// error comes after `READ_ATTEMPTS` failed attempts and holds the last one's failure.
pub open spec fn retry_reports(
    request: ReadRegisterRequest,
    expected_type: RegisterDataType,
    attempts: Seq<SerialAttempt>,
    result: Result<RegisterValue, ReadRegisterError>,
) -> bool {
    &&& 1 <= attempts.len() <= READ_ATTEMPTS
    &&& forall|k: int| 0 <= k < attempts.len() - 1 ==> #[trigger] attempt_failed(request, expected_type, attempts[k])
    &&& match result {
        Ok(value) => attempt_reports(request, expected_type, attempts.last(), Ok(value)),
        Err(error) => {
            &&& attempts.len() == READ_ATTEMPTS
            &&& error.attempts_spec() == READ_ATTEMPTS
            &&& attempt_reports(request, expected_type, attempts.last(), Err(error.last_error_spec()))
        },
    }
}

/// The exchanges made after the `before` ones.
pub open spec fn exchanges_since(log: Seq<SerialAttempt>, before: Seq<SerialAttempt>) -> Seq<SerialAttempt> {
    log.skip(before.len() as int)
}

/// Whether a record of exchanges only grew.
pub open spec fn exchanges_extend(log: Seq<SerialAttempt>, before: Seq<SerialAttempt>) -> bool {
    log.len() >= before.len() && log.take(before.len() as int) == before
}

/// An attempt that reports a failure is a failed attempt.
proof fn lemma_reported_failure(
    request: ReadRegisterRequest,
    expected_type: RegisterDataType,
    attempt: SerialAttempt,
    error: ReadRegisterAttemptError,
)
    requires
        attempt_reports(request, expected_type, attempt, Err(error)),
    ensures
        attempt_failed(request, expected_type, attempt),
{
    if let Some(bytes) = attempt.response {
        assert forall|value: RegisterValueView| !#[trigger] attempt_succeeds_with(request, expected_type, bytes, value) by {
            if attempt_succeeds_with(request, expected_type, bytes, value) {
                match error {
                    ReadRegisterAttemptError::InvalidResponse(_) => {},
                    ReadRegisterAttemptError::UnexpectedValueType { .. } => {},
                    ReadRegisterAttemptError::Serial(_) => {},
                }
            }
        }
    }
}

fn read_register_once<C: SerialExchange + ?Sized>(
    connection: &mut C,
    request: ReadRegisterRequest,
    expected_type: RegisterDataType,
) -> (outcome: (Result<RegisterValue, ReadRegisterAttemptError>, Ghost<SerialAttempt>))
    ensures
        attempt_reports(request, expected_type, outcome.1@, outcome.0),
        final(connection).exchanges() == old(connection).exchanges().push(outcome.1@),
{
    let request_bytes = request.encode();
    let response_length = expected_type.response_length();
    let response_bytes = match connection.exchange_exact(request_bytes.as_slice(), response_length) {
        Ok(bytes) => bytes,
        Err(error) => {
            let ghost attempt = SerialAttempt {
                request: request_bytes@,
                response_length: response_length as nat,
                response: None,
            };
            return (Err(ReadRegisterAttemptError::Serial(error)), Ghost(attempt));
        },
    };
    let result = interpret_read_response(request, expected_type, response_bytes.as_slice());
    let ghost attempt = SerialAttempt {
        request: request_bytes@,
        response_length: response_length as nat,
        response: Some(response_bytes@),
    };
    (result, Ghost(attempt))
}

/// Reads a register of the expected type, trying up to `READ_ATTEMPTS` times: each attempt sends
/// the request's encoding and asks for a response of the type's length; the first valid value of
/// the expected type is returned, and after `READ_ATTEMPTS` failures the last failure is
/// reported (see `retry_reports`).
pub fn read_register<C: SerialExchange + ?Sized>(
    connection: &mut C,
    request: ReadRegisterRequest,
    expected_type: RegisterDataType,
) -> (result: Result<RegisterValue, ReadRegisterError>)
    ensures
        result matches Ok(value) ==> read_can_yield(request, expected_type, value@),
        result matches Err(error) ==> error.attempts_spec() == READ_ATTEMPTS,
        exchanges_extend(final(connection).exchanges(), old(connection).exchanges()),
        retry_reports(
            request,
            expected_type,
            exchanges_since(final(connection).exchanges(), old(connection).exchanges()),
            result,
        ),
{
    let ghost start = connection.exchanges();
    let (first, first_attempt) = read_register_once(connection, request, expected_type);
    let ghost mut attempts: Seq<SerialAttempt> = seq![first_attempt@];
    let mut last_error = match first {
        Ok(value) => {
            let result = Ok(value);
            assert(attempt_succeeds_with(request, expected_type, first_attempt@.response->Some_0, value@));
            assert(connection.exchanges() =~= start + attempts);
            assert(exchanges_since(connection.exchanges(), start) =~= attempts);
            assert(connection.exchanges().take(start.len() as int) =~= start);
            assert(retry_reports(request, expected_type, attempts, result));
            return result;
        },
        Err(error) => error,
    };
    proof {
        lemma_reported_failure(request, expected_type, first_attempt@, last_error);
    }
    let mut attempt: usize = 1;
    while attempt < READ_ATTEMPTS
        invariant
            1 <= attempt <= READ_ATTEMPTS,
            attempts.len() == attempt,
            connection.exchanges() == start + attempts,
            start == old(connection).exchanges(),
            forall|k: int| 0 <= k < attempts.len() ==> #[trigger] attempt_failed(request, expected_type, attempts[k]),
            attempt_reports(request, expected_type, attempts.last(), Err(last_error)),
        decreases READ_ATTEMPTS - attempt,
    {
        let (outcome, this_attempt) = read_register_once(connection, request, expected_type);
        let ghost earlier = attempts;
        proof {
            attempts = attempts.push(this_attempt@);
        }
        match outcome {
            Ok(value) => {
                let result = Ok(value);
                assert(attempts.last() == this_attempt@);
                assert forall|k: int| 0 <= k < attempts.len() - 1 implies #[trigger] attempt_failed(request, expected_type, attempts[k]) by {
                    assert(attempts[k] == earlier[k]);
                }
                assert(attempt_succeeds_with(request, expected_type, this_attempt@.response->Some_0, value@));
                assert(connection.exchanges() =~= start + attempts);
                assert(exchanges_since(connection.exchanges(), start) =~= attempts);
                assert(connection.exchanges().take(start.len() as int) =~= start);
                assert(retry_reports(request, expected_type, attempts, result));
                return result;
            },
            Err(error) => {
                proof {
                    lemma_reported_failure(request, expected_type, this_attempt@, error);
                }
                assert forall|k: int| 0 <= k < attempts.len() implies #[trigger] attempt_failed(request, expected_type, attempts[k]) by {
                    if k < earlier.len() {
                        assert(attempts[k] == earlier[k]);
                    }
                }
                last_error = error;
            },
        }
        attempt += 1;
    }
    let error = ReadRegisterError { attempts: READ_ATTEMPTS, last_error };
    let result = Err(error);
    assert(connection.exchanges() =~= start + attempts);
    assert(exchanges_since(connection.exchanges(), start) =~= attempts);
    assert(connection.exchanges().take(start.len() as int) =~= start);
    assert(retry_reports(request, expected_type, attempts, result));
    result
}

/// A read of an `Int` register as a register value.
pub open spec fn int_read_result(result: Result<i16, ReadIntRegisterError>) -> Result<RegisterValue, ReadRegisterError> {
    match result {
        Ok(value) => Ok(RegisterValue::Int(value)),
        Err(error) => Err(error),
    }
}

/// Reads a signed 16-bit (`Int`) register, trying up to `READ_ATTEMPTS` times (see
/// `read_register`).
pub fn read_int_register<C: SerialExchange + ?Sized>(
    connection: &mut C,
    request: ReadRegisterRequest,
) -> (result: Result<i16, ReadIntRegisterError>)
    ensures
        match result {
            Ok(value) => read_can_yield(request, RegisterDataType::Int, RegisterValueView::Int(value)),
            Err(error) => error.attempts_spec() == READ_ATTEMPTS,
        },
        exchanges_extend(final(connection).exchanges(), old(connection).exchanges()),
        retry_reports(
            request,
            RegisterDataType::Int,
            exchanges_since(final(connection).exchanges(), old(connection).exchanges()),
            int_read_result(result),
        ),
{
    let read_value = read_register(connection, request, RegisterDataType::Int);
    let read_value = match read_value {
        Ok(read_value) => read_value,
        Err(error) => {
            return Err(error);
        },
    };
    match read_value {
        RegisterValue::Int(number) => {
            assert(read_can_yield(request, RegisterDataType::Int, RegisterValueView::Int(number)));
            Ok(number)
        },
        _ => vstd::pervasive::unreached(),
    }
}

/// The description of a response error.
pub open spec fn response_error_text(error: ReadResponseError) -> Seq<char> {
    match error {
        ReadResponseError::FrameTooShort(length) => "Metakon response is too short: "@ + decimal(
            length as nat,
        ) + " bytes"@,
        ReadResponseError::FrameTooLong(length) => "Metakon response is too long: "@ + decimal(
            length as nat,
        ) + " bytes"@,
        ReadResponseError::CrcMismatch { expected, actual } => "Metakon CRC mismatch: expected "@
            + hexadecimal(expected as nat, 2) + ", received "@ + hexadecimal(actual as nat, 2),
        ReadResponseError::UnexpectedDevice { expected, actual } =>
            "Unexpected Metakon device address: expected "@ + decimal(expected as nat)
            + ", received "@ + decimal(actual as nat),
        ReadResponseError::UnexpectedChannel { expected, actual } =>
            "Unexpected Metakon channel: expected "@ + decimal(expected as nat) + ", received "@
            + decimal(actual as nat),
        ReadResponseError::UnexpectedRegister { expected, actual } =>
            "Unexpected Metakon register: expected "@ + hexadecimal(expected as nat, 2)
            + ", received "@ + hexadecimal(actual as nat, 2),
        ReadResponseError::UnexpectedCommand { expected, actual } =>
            "Unexpected Metakon command: expected "@ + hexadecimal(expected as nat, 2)
            + ", received "@ + hexadecimal(actual as nat, 2),
        ReadResponseError::UnsupportedType(type_code) => "Unsupported Metakon register type: "@
            + decimal(type_code as nat),
        ReadResponseError::InvalidDataLength { type_code, expected, actual } =>
            "Invalid Metakon data length for type "@ + decimal(type_code as nat) + ": expected "@
            + decimal(expected as nat) + ", received "@ + decimal(actual as nat),
        ReadResponseError::InvalidBool(value) => "Invalid Metakon boolean value: "@ + hexadecimal(
            value as nat,
            2,
        ),
        ReadResponseError::InvalidAscii => "Invalid Metakon ASCIIZ value"@,
    }
}

/// The description of a failed read attempt.
pub open spec fn attempt_error_text(error: ReadRegisterAttemptError) -> Seq<char> {
    match error {
        ReadRegisterAttemptError::Serial(serial) => serial.message_view(),
        ReadRegisterAttemptError::InvalidResponse(response) => response_error_text(response),
        ReadRegisterAttemptError::UnexpectedValueType { expected, actual } => "Expected Metakon "@
            + data_type_name(expected) + " response, got "@ + actual@,
    }
}

fn push_expected_received(text: &mut String, prefix: &str, expected: u8, actual: u8, hex: bool)
    ensures
        final(text)@ == old(text)@ + prefix@ + (if hex {
            hexadecimal(expected as nat, 2)
        } else {
            decimal(expected as nat)
        }) + ", received "@ + (if hex {
            hexadecimal(actual as nat, 2)
        } else {
            decimal(actual as nat)
        }),
{
    push_str(text, prefix);
    if hex {
        push_hexadecimal(text, expected as u64, 2);
    } else {
        push_decimal(text, expected as u64);
    }
    push_str(text, ", received ");
    if hex {
        push_hexadecimal(text, actual as u64, 2);
    } else {
        push_decimal(text, actual as u64);
    }
    assert(final(text)@ =~= old(text)@ + prefix@ + (if hex {
        hexadecimal(expected as nat, 2)
    } else {
        decimal(expected as nat)
    }) + ", received "@ + (if hex {
        hexadecimal(actual as nat, 2)
    } else {
        decimal(actual as nat)
    }));
}

impl ReadResponseError {
    /// The human-readable description of the error.
    pub fn to_string(&self) -> (text: String)
        ensures
            text@ == response_error_text(*self),
    {
        let mut text = String::new();
        match *self {
            ReadResponseError::FrameTooShort(length) => {
                push_str(&mut text, "Metakon response is too short: ");
                push_decimal(&mut text, length as u64);
                push_str(&mut text, " bytes");
            },
            ReadResponseError::FrameTooLong(length) => {
                push_str(&mut text, "Metakon response is too long: ");
                push_decimal(&mut text, length as u64);
                push_str(&mut text, " bytes");
            },
            ReadResponseError::CrcMismatch { expected, actual } => {
                push_expected_received(&mut text, "Metakon CRC mismatch: expected ", expected, actual, true);
            },
            ReadResponseError::UnexpectedDevice { expected, actual } => {
                push_expected_received(&mut text, "Unexpected Metakon device address: expected ", expected, actual, false);
            },
            ReadResponseError::UnexpectedChannel { expected, actual } => {
                push_expected_received(&mut text, "Unexpected Metakon channel: expected ", expected, actual, false);
            },
            ReadResponseError::UnexpectedRegister { expected, actual } => {
                push_expected_received(&mut text, "Unexpected Metakon register: expected ", expected, actual, true);
            },
            ReadResponseError::UnexpectedCommand { expected, actual } => {
                push_expected_received(&mut text, "Unexpected Metakon command: expected ", expected, actual, true);
            },
            ReadResponseError::UnsupportedType(type_code) => {
                push_str(&mut text, "Unsupported Metakon register type: ");
                push_decimal(&mut text, type_code as u64);
            },
            ReadResponseError::InvalidDataLength { type_code, expected, actual } => {
                push_str(&mut text, "Invalid Metakon data length for type ");
                push_decimal(&mut text, type_code as u64);
                push_str(&mut text, ": expected ");
                push_decimal(&mut text, expected as u64);
                push_str(&mut text, ", received ");
                push_decimal(&mut text, actual as u64);
            },
            ReadResponseError::InvalidBool(value) => {
                push_str(&mut text, "Invalid Metakon boolean value: ");
                push_hexadecimal(&mut text, value as u64, 2);
            },
            ReadResponseError::InvalidAscii => {
                push_str(&mut text, "Invalid Metakon ASCIIZ value");
            },
        }
        assert(text@ =~= response_error_text(*self));
        text
    }
}

impl ReadRegisterAttemptError {
    /// The human-readable description of the failed attempt.
    pub fn to_string(&self) -> (text: String)
        ensures
            text@ == attempt_error_text(*self),
    {
        match self {
            ReadRegisterAttemptError::Serial(error) => error.to_string(),
            ReadRegisterAttemptError::InvalidResponse(error) => error.to_string(),
            ReadRegisterAttemptError::UnexpectedValueType { expected, actual } => {
                let mut text = String::new();
                push_str(&mut text, "Expected Metakon ");
                push_str(&mut text, expected.name());
                push_str(&mut text, " response, got ");
                push_str(&mut text, actual);
                assert(text@ =~= attempt_error_text(*self));
                text
            },
        }
    }
}

impl ReadRegisterError {
    /// The human-readable description: the attempt count and the last attempt's failure.
    pub fn to_string(&self) -> (text: String)
        ensures
            text@ == "Metakon register read failed after "@ + decimal(self.attempts_spec() as nat)
                + " attempts: "@ + attempt_error_text(self.last_error_spec()),
    {
        let mut text = String::new();
        push_str(&mut text, "Metakon register read failed after ");
        push_decimal(&mut text, self.attempts as u64);
        push_str(&mut text, " attempts: ");
        let last = self.last_error.to_string();
        push_str(&mut text, last.as_str());
        assert(text@ =~= "Metakon register read failed after "@ + decimal(self.attempts_spec() as nat)
            + " attempts: "@ + attempt_error_text(self.last_error_spec()));
        text
    }
}

} // verus!
