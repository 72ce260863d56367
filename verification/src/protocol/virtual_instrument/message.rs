//! Payload codec of the virtual-instrument messages.
//!
//! Integers are little-endian; a string is its UTF-8 length as a `u16` followed by its bytes; a
//! collection is its length as a `u16` followed by its items; a boolean is one byte, 0 or 1.
use vstd::prelude::*;

use std::collections::HashSet;

use vstd::utf8::{decode_utf8, encode_utf8, valid_utf8};

use crate::binary64::{finite, is_finite};
use crate::bytes::{
    le_u16, le_u64, lemma_u16_round_trip, lemma_u64_round_trip, push_bytes, push_le_u16,
    push_le_u64, read_le_u16, read_le_u64, u16_le_bytes, u64_le_bytes, copy_range,
};
use crate::instrument::{
    first_parameter_repeat, parameter_ids_distinct, parameter_views, InstrumentDescriptorView,
    InstrumentValue, ParameterAccess, ParameterDescriptorView, ParameterRange, ParameterValueType,
    VirtualInstrumentDescriptor, VirtualInstrumentId, VirtualInstrumentSchemaError,
    VirtualParameterDescriptor, VirtualParameterId, schema_error_text,
};
use crate::protocol::virtual_instrument::{
    frame_error_text, FrameView, MessageKind, VirtualFrameError, VirtualInstrumentFrame,
    MAX_PAYLOAD_LENGTH,
};
use crate::text::{decimal, push_decimal, push_str, utf8_text};

verus! {

pub const ACCESS_READ_ONLY: u8 = 1;
pub const ACCESS_WRITE_ONLY: u8 = 2;
pub const ACCESS_READ_WRITE: u8 = 3;

pub const TYPE_BOOLEAN: u8 = 1;
pub const TYPE_INTEGER: u8 = 2;
pub const TYPE_NUMBER: u8 = 3;

pub const RANGE_NONE: u8 = 0;
pub const RANGE_INTEGER: u8 = 1;
pub const RANGE_NUMBER: u8 = 2;

/// The tag of a boolean value.
pub const VALUE_BOOLEAN: u8 = 1;
pub const VALUE_INTEGER: u8 = 2;
pub const VALUE_NUMBER: u8 = 3;

pub const U16_LIMIT: usize = 0xFFFF;

#[derive(Clone, Copy, Debug, PartialEq, Eq)]
pub enum VirtualMessageCodecError {
    Frame(VirtualFrameError),
    Schema(VirtualInstrumentSchemaError),
    UnexpectedEnd,
    TrailingBytes(usize),
    InvalidUtf8,
    InvalidBoolean(u8),
    NonFiniteNumber,
    StringTooLong(usize),
    CollectionTooLong { collection: &'static str, length: usize },
    DuplicateInstrumentId(VirtualInstrumentId),
    UnknownParameterAccess(u8),
    UnknownParameterValueType(u8),
    UnknownRangeType(u8),
    UnknownValueType(u8),
}

/// The description of a codec error.
pub open spec fn codec_error_text(error: VirtualMessageCodecError) -> Seq<char> {
    match error {
        VirtualMessageCodecError::Frame(frame) => frame_error_text(frame),
        VirtualMessageCodecError::Schema(schema) => schema_error_text(schema),
        VirtualMessageCodecError::UnexpectedEnd => "Unexpected end of virtual instrument payload"@,
        VirtualMessageCodecError::TrailingBytes(count) => "Virtual instrument payload has "@
            + decimal(count as nat) + " trailing bytes"@,
        VirtualMessageCodecError::InvalidUtf8 => "Virtual instrument string is not valid UTF-8"@,
        VirtualMessageCodecError::InvalidBoolean(value) => "Invalid virtual instrument boolean value: "@
            + decimal(value as nat),
        VirtualMessageCodecError::NonFiniteNumber => "Virtual instrument number must be finite"@,
        VirtualMessageCodecError::StringTooLong(length) => "Virtual instrument string is too long: "@
            + decimal(length as nat) + " bytes"@,
        VirtualMessageCodecError::CollectionTooLong { collection, length } => "Too many virtual instrument "@
            + collection@ + ": "@ + decimal(length as nat),
        VirtualMessageCodecError::DuplicateInstrumentId(id) => "Duplicate virtual instrument ID "@
            + decimal(id.0 as nat),
        VirtualMessageCodecError::UnknownParameterAccess(value) => "Unknown virtual parameter access: "@
            + decimal(value as nat),
        VirtualMessageCodecError::UnknownParameterValueType(value) => "Unknown virtual parameter type: "@
            + decimal(value as nat),
        VirtualMessageCodecError::UnknownRangeType(value) => "Unknown virtual parameter range type: "@
            + decimal(value as nat),
        VirtualMessageCodecError::UnknownValueType(value) => "Unknown virtual instrument value type: "@
            + decimal(value as nat),
    }
}

impl VirtualMessageCodecError {
    /// The human-readable description of the error.
    pub fn to_string(&self) -> (text: String)
        ensures
            text@ == codec_error_text(*self),
    {
        match *self {
            VirtualMessageCodecError::Frame(frame) => frame.to_string(),
            VirtualMessageCodecError::Schema(schema) => schema.to_string(),
            VirtualMessageCodecError::UnexpectedEnd => {
                let mut text = String::new();
                push_str(&mut text, "Unexpected end of virtual instrument payload");
                assert(text@ =~= codec_error_text(*self));
                text
            },
            VirtualMessageCodecError::TrailingBytes(count) => {
                let mut text = String::new();
                push_str(&mut text, "Virtual instrument payload has ");
                push_decimal(&mut text, count as u64);
                push_str(&mut text, " trailing bytes");
                assert(text@ =~= codec_error_text(*self));
                text
            },
            VirtualMessageCodecError::InvalidUtf8 => {
                let mut text = String::new();
                push_str(&mut text, "Virtual instrument string is not valid UTF-8");
                assert(text@ =~= codec_error_text(*self));
                text
            },
            VirtualMessageCodecError::InvalidBoolean(value) => {
                let mut text = String::new();
                push_str(&mut text, "Invalid virtual instrument boolean value: ");
                push_decimal(&mut text, value as u64);
                assert(text@ =~= codec_error_text(*self));
                text
            },
            VirtualMessageCodecError::NonFiniteNumber => {
                let mut text = String::new();
                push_str(&mut text, "Virtual instrument number must be finite");
                assert(text@ =~= codec_error_text(*self));
                text
            },
            VirtualMessageCodecError::StringTooLong(length) => {
                let mut text = String::new();
                push_str(&mut text, "Virtual instrument string is too long: ");
                push_decimal(&mut text, length as u64);
                push_str(&mut text, " bytes");
                assert(text@ =~= codec_error_text(*self));
                text
            },
            VirtualMessageCodecError::CollectionTooLong { collection, length } => {
                let mut text = String::new();
                push_str(&mut text, "Too many virtual instrument ");
                push_str(&mut text, collection);
                push_str(&mut text, ": ");
                push_decimal(&mut text, length as u64);
                assert(text@ =~= codec_error_text(*self));
                text
            },
            VirtualMessageCodecError::DuplicateInstrumentId(id) => {
                let mut text = String::new();
                push_str(&mut text, "Duplicate virtual instrument ID ");
                push_decimal(&mut text, id.0 as u64);
                assert(text@ =~= codec_error_text(*self));
                text
            },
            VirtualMessageCodecError::UnknownParameterAccess(value) => {
                let mut text = String::new();
                push_str(&mut text, "Unknown virtual parameter access: ");
                push_decimal(&mut text, value as u64);
                assert(text@ =~= codec_error_text(*self));
                text
            },
            VirtualMessageCodecError::UnknownParameterValueType(value) => {
                let mut text = String::new();
                push_str(&mut text, "Unknown virtual parameter type: ");
                push_decimal(&mut text, value as u64);
                assert(text@ =~= codec_error_text(*self));
                text
            },
            VirtualMessageCodecError::UnknownRangeType(value) => {
                let mut text = String::new();
                push_str(&mut text, "Unknown virtual parameter range type: ");
                push_decimal(&mut text, value as u64);
                assert(text@ =~= codec_error_text(*self));
                text
            },
            VirtualMessageCodecError::UnknownValueType(value) => {
                let mut text = String::new();
                push_str(&mut text, "Unknown virtual instrument value type: ");
                push_decimal(&mut text, value as u64);
                assert(text@ =~= codec_error_text(*self));
                text
            },
        }
    }
}

/// The abstract content of a message.
pub enum MessageView {
    DescribeRequest,
    DescribeResponse { instruments: Seq<InstrumentDescriptorView> },
    ReadRequest { instrument: VirtualInstrumentId, parameter: VirtualParameterId },
    ReadResponse { value: InstrumentValue },
    WriteRequest {
        instrument: VirtualInstrumentId,
        parameter: VirtualParameterId,
        value: InstrumentValue,
    },
    WriteResponse { value: InstrumentValue },
    ErrorResponse { code: u16, message: Seq<char> },
}

// ---------------------------------------------------------------------------------------------
// Encoding
// ---------------------------------------------------------------------------------------------

/// The byte of a boolean.
pub open spec fn bool_byte(value: bool) -> u8 {
    if value {
        1
    } else {
        0
    }
}

/// A string: its UTF-8 length as a `u16`, then its UTF-8 bytes; refused beyond 65535 bytes.
pub open spec fn string_bytes(text: Seq<char>) -> Result<Seq<u8>, VirtualMessageCodecError> {
    let bytes = encode_utf8(text);
    if bytes.len() <= U16_LIMIT {
        Ok(u16_le_bytes(bytes.len() as u16) + bytes)
    } else {
        Err(VirtualMessageCodecError::StringTooLong(bytes.len() as usize))
    }
}

/// A value: its type tag, then the boolean byte or the eight little-endian bytes.
pub open spec fn value_bytes(value: InstrumentValue) -> Seq<u8> {
    match value {
        InstrumentValue::Boolean(flag) => seq![VALUE_BOOLEAN, bool_byte(flag)],
        InstrumentValue::Integer(integer) => seq![VALUE_INTEGER] + u64_le_bytes(integer as u64),
        InstrumentValue::Number(bits) => seq![VALUE_NUMBER] + u64_le_bytes(bits),
    }
}

/// A parameter address: the instrument identifier, then the parameter identifier.
pub open spec fn address_bytes(instrument: VirtualInstrumentId, parameter: VirtualParameterId) -> Seq<u8> {
    u16_le_bytes(instrument.0) + u16_le_bytes(parameter.0)
}

pub open spec fn access_code(access: ParameterAccess) -> u8 {
    match access {
        ParameterAccess::ReadOnly => ACCESS_READ_ONLY,
        ParameterAccess::WriteOnly => ACCESS_WRITE_ONLY,
        ParameterAccess::ReadWrite => ACCESS_READ_WRITE,
    }
}

pub open spec fn value_type_code(value_type: ParameterValueType) -> u8 {
    match value_type {
        ParameterValueType::Boolean => TYPE_BOOLEAN,
        ParameterValueType::Integer => TYPE_INTEGER,
        ParameterValueType::Number => TYPE_NUMBER,
    }
}

/// A range: its tag, then its minimum and maximum.
pub open spec fn range_bytes(range: Option<ParameterRange>) -> Seq<u8> {
    match range {
        None => seq![RANGE_NONE],
        Some(ParameterRange::Integer { minimum, maximum }) => seq![RANGE_INTEGER] + (u64_le_bytes(
            minimum as u64,
        ) + u64_le_bytes(maximum as u64)),
        Some(ParameterRange::Number { minimum, maximum }) => seq![RANGE_NUMBER] + (u64_le_bytes(
            minimum,
        ) + u64_le_bytes(maximum)),
    }
}

/// A unit: a presence byte, then the unit's string when there is one.
pub open spec fn unit_bytes(unit: Option<Seq<char>>) -> Result<Seq<u8>, VirtualMessageCodecError> {
    match unit {
        None => Ok(seq![0u8]),
        Some(text) => match string_bytes(text) {
            Ok(bytes) => Ok(seq![1u8] + bytes),
            Err(error) => Err(error),
        },
    }
}

/// A parameter's identifier, key and name.
pub open spec fn parameter_names_bytes(parameter: ParameterDescriptorView) -> Result<Seq<u8>, VirtualMessageCodecError> {
    match string_bytes(parameter.key) {
        Err(error) => Err(error),
        Ok(key) => match string_bytes(parameter.name) {
            Err(error) => Err(error),
            Ok(name) => Ok(u16_le_bytes(parameter.id.0) + (key + name)),
        },
    }
}

/// A parameter's access, value type and series flag.
pub open spec fn parameter_traits_bytes(parameter: ParameterDescriptorView) -> Seq<u8> {
    seq![
        access_code(parameter.access),
        value_type_code(parameter.value_type),
        bool_byte(parameter.series),
    ]
}

/// A parameter's range and unit.
pub open spec fn parameter_bounds_bytes(parameter: ParameterDescriptorView) -> Result<Seq<u8>, VirtualMessageCodecError> {
    match unit_bytes(parameter.unit) {
        Err(error) => Err(error),
        Ok(unit) => Ok(range_bytes(parameter.range) + unit),
    }
}

/// A parameter descriptor: identifier, key, name, access, type, series flag, range and unit.
#[verifier::opaque]
pub open spec fn parameter_bytes(parameter: ParameterDescriptorView) -> Result<Seq<u8>, VirtualMessageCodecError> {
    match parameter_names_bytes(parameter) {
        Err(error) => Err(error),
        Ok(names) => match parameter_bounds_bytes(parameter) {
            Err(error) => Err(error),
            Ok(bounds) => Ok(names + (parameter_traits_bytes(parameter) + bounds)),
        },
    }
}

/// The parameter descriptors one after another; the first failure is reported.
pub open spec fn parameters_bytes(parameters: Seq<ParameterDescriptorView>) -> Result<Seq<u8>, VirtualMessageCodecError>
    decreases parameters.len(),
{
    if parameters.len() == 0 {
        Ok(Seq::empty())
    } else {
        match parameters_bytes(parameters.drop_last()) {
            Err(error) => Err(error),
            Ok(earlier) => match parameter_bytes(parameters.last()) {
                Err(error) => Err(error),
                Ok(last) => Ok(earlier + last),
            },
        }
    }
}

/// A collection length as a `u16`; refused beyond 65535 items.
pub open spec fn count_bytes(collection: &'static str, length: nat) -> Result<Seq<u8>, VirtualMessageCodecError> {
    if length <= U16_LIMIT {
        Ok(u16_le_bytes(length as u16))
    } else {
        Err(VirtualMessageCodecError::CollectionTooLong { collection, length: length as usize })
    }
}

/// An instrument descriptor: identifier, name, and its counted parameter descriptors.
#[verifier::opaque]
pub open spec fn instrument_bytes(instrument: InstrumentDescriptorView) -> Result<Seq<u8>, VirtualMessageCodecError> {
    match string_bytes(instrument.name) {
        Err(error) => Err(error),
        Ok(name) => match count_bytes("parameters", instrument.parameters.len()) {
            Err(error) => Err(error),
            Ok(count) => match parameters_bytes(instrument.parameters) {
                Err(error) => Err(error),
                Ok(parameters) => Ok(u16_le_bytes(instrument.id.0) + (name + (count + parameters))),
            },
        },
    }
}

/// The instrument descriptors one after another; the first failure is reported.
pub open spec fn instruments_bytes(instruments: Seq<InstrumentDescriptorView>) -> Result<Seq<u8>, VirtualMessageCodecError>
    decreases instruments.len(),
{
    if instruments.len() == 0 {
        Ok(Seq::empty())
    } else {
        match instruments_bytes(instruments.drop_last()) {
            Err(error) => Err(error),
            Ok(earlier) => match instrument_bytes(instruments.last()) {
                Err(error) => Err(error),
                Ok(last) => Ok(earlier + last),
            },
        }
    }
}

/// Whether the instrument at `index` repeats the identifier of an earlier one.
pub open spec fn repeats_earlier_instrument(instruments: Seq<InstrumentDescriptorView>, index: int) -> bool {
    exists|i: int| 0 <= i < index && instruments[i].id == instruments[index].id
}

/// Whether no two instruments share an identifier.
pub open spec fn instrument_ids_distinct(instruments: Seq<InstrumentDescriptorView>) -> bool {
    forall|i: int, j: int|
        0 <= i < j < instruments.len() ==> instruments[i].id != instruments[j].id
}

/// Whether `index` is the first position whose instrument repeats an earlier identifier.
pub open spec fn is_first_instrument_repeat(instruments: Seq<InstrumentDescriptorView>, index: int) -> bool {
    &&& 0 <= index < instruments.len()
    &&& repeats_earlier_instrument(instruments, index)
    &&& forall|k: int| 0 <= k < index ==> !repeats_earlier_instrument(instruments, k)
}

/// The first position whose instrument repeats an earlier identifier (meaningful when there is one).
pub open spec fn first_instrument_repeat(instruments: Seq<InstrumentDescriptorView>) -> int {
    choose|index: int| is_first_instrument_repeat(instruments, index)
}

/// An instrument catalog: refused when two instruments share an identifier (naming the first
/// repeat) or when it is too long; otherwise its count, then the descriptors.
pub open spec fn catalog_bytes(instruments: Seq<InstrumentDescriptorView>) -> Result<Seq<u8>, VirtualMessageCodecError> {
    if !instrument_ids_distinct(instruments) {
        Err(
            VirtualMessageCodecError::DuplicateInstrumentId(
                instruments[first_instrument_repeat(instruments)].id,
            ),
        )
    } else {
        match count_bytes("instruments", instruments.len()) {
            Err(error) => Err(error),
            Ok(count) => match instruments_bytes(instruments) {
                Err(error) => Err(error),
                Ok(descriptors) => Ok(count + descriptors),
            },
        }
    }
}

/// The kind of frame that carries a message.
pub open spec fn message_kind(message: MessageView) -> MessageKind {
    match message {
        MessageView::DescribeRequest => MessageKind::DescribeRequest,
        MessageView::DescribeResponse { .. } => MessageKind::DescribeResponse,
        MessageView::ReadRequest { .. } => MessageKind::ReadRequest,
        MessageView::ReadResponse { .. } => MessageKind::ReadResponse,
        MessageView::WriteRequest { .. } => MessageKind::WriteRequest,
        MessageView::WriteResponse { .. } => MessageKind::WriteResponse,
        MessageView::ErrorResponse { .. } => MessageKind::ErrorResponse,
    }
}

/// The payload of a message, or the reason it cannot be encoded.
pub open spec fn payload_bytes(message: MessageView) -> Result<Seq<u8>, VirtualMessageCodecError> {
    match message {
        MessageView::DescribeRequest => Ok(Seq::empty()),
        MessageView::DescribeResponse { instruments } => catalog_bytes(instruments),
        MessageView::ReadRequest { instrument, parameter } => Ok(address_bytes(instrument, parameter)),
        MessageView::ReadResponse { value } => Ok(value_bytes(value)),
        MessageView::WriteRequest { instrument, parameter, value } => Ok(
            address_bytes(instrument, parameter) + value_bytes(value),
        ),
        MessageView::WriteResponse { value } => Ok(value_bytes(value)),
        MessageView::ErrorResponse { code, message } => match string_bytes(message) {
            Ok(text) => Ok(u16_le_bytes(code) + text),
            Err(error) => Err(error),
        },
    }
}

/// The frame that carries a message, or the reason it cannot be built.
pub open spec fn message_frame(message: MessageView) -> Result<FrameView, VirtualMessageCodecError> {
    match payload_bytes(message) {
        Err(error) => Err(error),
        Ok(payload) => if payload.len() <= MAX_PAYLOAD_LENGTH {
            Ok(FrameView { kind: message_kind(message), payload })
        } else {
            Err(
                VirtualMessageCodecError::Frame(
                    VirtualFrameError::PayloadTooLong {
                        length: payload.len() as usize,
                        maximum: MAX_PAYLOAD_LENGTH,
                    },
                ),
            )
        },
    }
}

// ---------------------------------------------------------------------------------------------
// Decoding: each reader takes the bytes still to read and gives the value and the bytes after it.
// ---------------------------------------------------------------------------------------------

pub open spec fn take_u8(bytes: Seq<u8>) -> Result<(u8, Seq<u8>), VirtualMessageCodecError> {
    if bytes.len() >= 1 {
        Ok((bytes[0], bytes.skip(1)))
    } else {
        Err(VirtualMessageCodecError::UnexpectedEnd)
    }
}

pub open spec fn take_bool(bytes: Seq<u8>) -> Result<(bool, Seq<u8>), VirtualMessageCodecError> {
    match take_u8(bytes) {
        Err(error) => Err(error),
        Ok((byte, rest)) => if byte == 0 {
            Ok((false, rest))
        } else if byte == 1 {
            Ok((true, rest))
        } else {
            Err(VirtualMessageCodecError::InvalidBoolean(byte))
        },
    }
}

pub open spec fn take_u16(bytes: Seq<u8>) -> Result<(u16, Seq<u8>), VirtualMessageCodecError> {
    if bytes.len() >= 2 {
        Ok((le_u16(bytes[0], bytes[1]), bytes.skip(2)))
    } else {
        Err(VirtualMessageCodecError::UnexpectedEnd)
    }
}

pub open spec fn take_u64(bytes: Seq<u8>) -> Result<(u64, Seq<u8>), VirtualMessageCodecError> {
    if bytes.len() >= 8 {
        Ok((le_u64(bytes.take(8)), bytes.skip(8)))
    } else {
        Err(VirtualMessageCodecError::UnexpectedEnd)
    }
}

pub open spec fn take_i64(bytes: Seq<u8>) -> Result<(i64, Seq<u8>), VirtualMessageCodecError> {
    match take_u64(bytes) {
        Err(error) => Err(error),
        Ok((value, rest)) => Ok((value as i64, rest)),
    }
}

pub open spec fn take_string(bytes: Seq<u8>) -> Result<(Seq<char>, Seq<u8>), VirtualMessageCodecError> {
    match take_u16(bytes) {
        Err(error) => Err(error),
        Ok((length, rest)) => if rest.len() < length {
            Err(VirtualMessageCodecError::UnexpectedEnd)
        } else if !valid_utf8(rest.take(length as int)) {
            Err(VirtualMessageCodecError::InvalidUtf8)
        } else {
            Ok((decode_utf8(rest.take(length as int)), rest.skip(length as int)))
        },
    }
}

pub open spec fn take_value(bytes: Seq<u8>) -> Result<(InstrumentValue, Seq<u8>), VirtualMessageCodecError> {
    match take_u8(bytes) {
        Err(error) => Err(error),
        Ok((tag, rest)) => if tag == VALUE_BOOLEAN {
            match take_bool(rest) {
                Err(error) => Err(error),
                Ok((flag, after)) => Ok((InstrumentValue::Boolean(flag), after)),
            }
        } else if tag == VALUE_INTEGER {
            match take_i64(rest) {
                Err(error) => Err(error),
                Ok((integer, after)) => Ok((InstrumentValue::Integer(integer), after)),
            }
        } else if tag == VALUE_NUMBER {
            match take_u64(rest) {
                Err(error) => Err(error),
                Ok((bits, after)) => if is_finite(bits) {
                    Ok((InstrumentValue::Number(bits), after))
                } else {
                    Err(VirtualMessageCodecError::NonFiniteNumber)
                },
            }
        } else {
            Err(VirtualMessageCodecError::UnknownValueType(tag))
        },
    }
}

pub open spec fn access_of_code(code: u8) -> Result<ParameterAccess, VirtualMessageCodecError> {
    if code == ACCESS_READ_ONLY {
        Ok(ParameterAccess::ReadOnly)
    } else if code == ACCESS_WRITE_ONLY {
        Ok(ParameterAccess::WriteOnly)
    } else if code == ACCESS_READ_WRITE {
        Ok(ParameterAccess::ReadWrite)
    } else {
        Err(VirtualMessageCodecError::UnknownParameterAccess(code))
    }
}

pub open spec fn value_type_of_code(code: u8) -> Result<ParameterValueType, VirtualMessageCodecError> {
    if code == TYPE_BOOLEAN {
        Ok(ParameterValueType::Boolean)
    } else if code == TYPE_INTEGER {
        Ok(ParameterValueType::Integer)
    } else if code == TYPE_NUMBER {
        Ok(ParameterValueType::Number)
    } else {
        Err(VirtualMessageCodecError::UnknownParameterValueType(code))
    }
}

pub open spec fn take_range(bytes: Seq<u8>) -> Result<(Option<ParameterRange>, Seq<u8>), VirtualMessageCodecError> {
    match take_u8(bytes) {
        Err(error) => Err(error),
        Ok((tag, rest)) => if tag == RANGE_NONE {
            Ok((None, rest))
        } else if tag == RANGE_INTEGER {
            match take_i64(rest) {
                Err(error) => Err(error),
                Ok((minimum, middle)) => match take_i64(middle) {
                    Err(error) => Err(error),
                    Ok((maximum, after)) => Ok(
                        (Some(ParameterRange::Integer { minimum, maximum }), after),
                    ),
                },
            }
        } else if tag == RANGE_NUMBER {
            match take_u64(rest) {
                Err(error) => Err(error),
                Ok((minimum, middle)) => match take_u64(middle) {
                    Err(error) => Err(error),
                    Ok((maximum, after)) => Ok(
                        (Some(ParameterRange::Number { minimum, maximum }), after),
                    ),
                },
            }
        } else {
            Err(VirtualMessageCodecError::UnknownRangeType(tag))
        },
    }
}

pub open spec fn take_unit(bytes: Seq<u8>) -> Result<(Option<Seq<char>>, Seq<u8>), VirtualMessageCodecError> {
    match take_bool(bytes) {
        Err(error) => Err(error),
        Ok((present, rest)) => if present {
            match take_string(rest) {
                Err(error) => Err(error),
                Ok((unit, after)) => Ok((Some(unit), after)),
            }
        } else {
            Ok((None, rest))
        },
    }
}

/// A parameter's identifier, key and name.
pub open spec fn take_parameter_names(bytes: Seq<u8>) -> Result<((u16, Seq<char>, Seq<char>), Seq<u8>), VirtualMessageCodecError> {
    match take_u16(bytes) {
        Err(error) => Err(error),
        Ok((id, b1)) => match take_string(b1) {
            Err(error) => Err(error),
            Ok((key, b2)) => match take_string(b2) {
                Err(error) => Err(error),
                Ok((name, b3)) => Ok(((id, key, name), b3)),
            },
        },
    }
}

/// A parameter's access, value type and series flag.
pub open spec fn take_parameter_traits(bytes: Seq<u8>) -> Result<((ParameterAccess, ParameterValueType, bool), Seq<u8>), VirtualMessageCodecError> {
    match take_u8(bytes) {
        Err(error) => Err(error),
        Ok((access_byte, b1)) => match access_of_code(access_byte) {
            Err(error) => Err(error),
            Ok(access) => match take_u8(b1) {
                Err(error) => Err(error),
                Ok((type_byte, b2)) => match value_type_of_code(type_byte) {
                    Err(error) => Err(error),
                    Ok(value_type) => match take_bool(b2) {
                        Err(error) => Err(error),
                        Ok((series, b3)) => Ok(((access, value_type, series), b3)),
                    },
                },
            },
        },
    }
}

/// A parameter's range and unit.
pub open spec fn take_parameter_bounds(bytes: Seq<u8>) -> Result<((Option<ParameterRange>, Option<Seq<char>>), Seq<u8>), VirtualMessageCodecError> {
    match take_range(bytes) {
        Err(error) => Err(error),
        Ok((range, b1)) => match take_unit(b1) {
            Err(error) => Err(error),
            Ok((unit, b2)) => Ok(((range, unit), b2)),
        },
    }
}

/// A parameter descriptor, in the order `parameter_bytes` writes it.
#[verifier::opaque]
pub open spec fn take_parameter(bytes: Seq<u8>) -> Result<(ParameterDescriptorView, Seq<u8>), VirtualMessageCodecError> {
    match take_parameter_names(bytes) {
        Err(error) => Err(error),
        Ok(((id, key, name), b1)) => match take_parameter_traits(b1) {
            Err(error) => Err(error),
            Ok(((access, value_type, series), b2)) => match take_parameter_bounds(b2) {
                Err(error) => Err(error),
                Ok(((range, unit), b3)) => Ok(
                    (
                        ParameterDescriptorView {
                            id: VirtualParameterId(id),
                            key,
                            name,
                            access,
                            value_type,
                            series,
                            range,
                            unit,
                        },
                        b3,
                    ),
                ),
            },
        },
    }
}

/// `count` parameter descriptors, one after another.
pub open spec fn take_parameters(bytes: Seq<u8>, count: nat) -> Result<(Seq<ParameterDescriptorView>, Seq<u8>), VirtualMessageCodecError>
    decreases count,
{
    if count == 0 {
        Ok((Seq::empty(), bytes))
    } else {
        match take_parameters(bytes, (count - 1) as nat) {
            Err(error) => Err(error),
            Ok((earlier, rest)) => match take_parameter(rest) {
                Err(error) => Err(error),
                Ok((parameter, after)) => Ok((earlier.push(parameter), after)),
            },
        }
    }
}

/// Whether an identifier is among those of the given instruments.
pub open spec fn has_instrument_id(instruments: Seq<InstrumentDescriptorView>, id: VirtualInstrumentId) -> bool {
    exists|i: int| 0 <= i < instruments.len() && instruments[i].id == id
}

/// An instrument's identifier, name and parameter count, after `earlier` instruments: refused
/// when the identifier repeats an earlier one.
pub open spec fn take_instrument_header(bytes: Seq<u8>, earlier: Seq<InstrumentDescriptorView>) -> Result<((u16, Seq<char>, u16), Seq<u8>), VirtualMessageCodecError> {
    match take_u16(bytes) {
        Err(error) => Err(error),
        Ok((raw_id, b1)) => if has_instrument_id(earlier, VirtualInstrumentId(raw_id)) {
            Err(VirtualMessageCodecError::DuplicateInstrumentId(VirtualInstrumentId(raw_id)))
        } else {
            match take_string(b1) {
                Err(error) => Err(error),
                Ok((name, b2)) => match take_u16(b2) {
                    Err(error) => Err(error),
                    Ok((count, b3)) => Ok(((raw_id, name, count), b3)),
                },
            }
        },
    }
}

/// An instrument built from its parts: refused when two of its parameters share an identifier.
pub open spec fn checked_instrument(raw_id: u16, name: Seq<char>, parameters: Seq<ParameterDescriptorView>) -> Result<InstrumentDescriptorView, VirtualMessageCodecError> {
    if parameter_ids_distinct(parameters) {
        Ok(InstrumentDescriptorView { id: VirtualInstrumentId(raw_id), name, parameters })
    } else {
        Err(
            VirtualMessageCodecError::Schema(
                VirtualInstrumentSchemaError::DuplicateParameterId {
                    instrument: VirtualInstrumentId(raw_id),
                    parameter: parameters[first_parameter_repeat(parameters)].id,
                },
            ),
        )
    }
}

/// One instrument descriptor, after `earlier` ones: refused when its identifier repeats an
/// earlier one or when two of its parameters share an identifier.
#[verifier::opaque]
pub open spec fn take_instrument(bytes: Seq<u8>, earlier: Seq<InstrumentDescriptorView>) -> Result<(InstrumentDescriptorView, Seq<u8>), VirtualMessageCodecError> {
    match take_instrument_header(bytes, earlier) {
        Err(error) => Err(error),
        Ok(((raw_id, name, count), b1)) => match take_parameters(b1, count as nat) {
            Err(error) => Err(error),
            Ok((parameters, b2)) => match checked_instrument(raw_id, name, parameters) {
                Err(error) => Err(error),
                Ok(instrument) => Ok((instrument, b2)),
            },
        },
    }
}

/// `count` instrument descriptors, one after another.
pub open spec fn take_instruments(bytes: Seq<u8>, count: nat) -> Result<(Seq<InstrumentDescriptorView>, Seq<u8>), VirtualMessageCodecError>
    decreases count,
{
    if count == 0 {
        Ok((Seq::empty(), bytes))
    } else {
        match take_instruments(bytes, (count - 1) as nat) {
            Err(error) => Err(error),
            Ok((earlier, rest)) => match take_instrument(rest, earlier) {
                Err(error) => Err(error),
                Ok((instrument, after)) => Ok((earlier.push(instrument), after)),
            },
        }
    }
}

pub open spec fn take_catalog(bytes: Seq<u8>) -> Result<(Seq<InstrumentDescriptorView>, Seq<u8>), VirtualMessageCodecError> {
    match take_u16(bytes) {
        Err(error) => Err(error),
        Ok((count, rest)) => take_instruments(rest, count as nat),
    }
}

pub open spec fn take_address(bytes: Seq<u8>) -> Result<((VirtualInstrumentId, VirtualParameterId), Seq<u8>), VirtualMessageCodecError> {
    match take_u16(bytes) {
        Err(error) => Err(error),
        Ok((instrument, rest)) => match take_u16(rest) {
            Err(error) => Err(error),
            Ok((parameter, after)) => Ok(
                ((VirtualInstrumentId(instrument), VirtualParameterId(parameter)), after),
            ),
        },
    }
}

/// The message body of a payload of the given kind, with the bytes left after it.
pub open spec fn take_message(kind: MessageKind, bytes: Seq<u8>) -> Result<(MessageView, Seq<u8>), VirtualMessageCodecError> {
    match kind {
        MessageKind::DescribeRequest => Ok((MessageView::DescribeRequest, bytes)),
        MessageKind::DescribeResponse => match take_catalog(bytes) {
            Err(error) => Err(error),
            Ok((instruments, rest)) => Ok((MessageView::DescribeResponse { instruments }, rest)),
        },
        MessageKind::ReadRequest => match take_address(bytes) {
            Err(error) => Err(error),
            Ok(((instrument, parameter), rest)) => Ok(
                (MessageView::ReadRequest { instrument, parameter }, rest),
            ),
        },
        MessageKind::ReadResponse => match take_value(bytes) {
            Err(error) => Err(error),
            Ok((value, rest)) => Ok((MessageView::ReadResponse { value }, rest)),
        },
        MessageKind::WriteRequest => match take_address(bytes) {
            Err(error) => Err(error),
            Ok(((instrument, parameter), rest)) => match take_value(rest) {
                Err(error) => Err(error),
                Ok((value, after)) => Ok(
                    (MessageView::WriteRequest { instrument, parameter, value }, after),
                ),
            },
        },
        MessageKind::WriteResponse => match take_value(bytes) {
            Err(error) => Err(error),
            Ok((value, rest)) => Ok((MessageView::WriteResponse { value }, rest)),
        },
        MessageKind::ErrorResponse => match take_u16(bytes) {
            Err(error) => Err(error),
            Ok((code, rest)) => match take_string(rest) {
                Err(error) => Err(error),
                Ok((message, after)) => Ok((MessageView::ErrorResponse { code, message }, after)),
            },
        },
    }
}

/// The message in a payload of the given kind; refused when bytes are left over.
pub open spec fn decode_payload(kind: MessageKind, payload: Seq<u8>) -> Result<MessageView, VirtualMessageCodecError> {
    match take_message(kind, payload) {
        Err(error) => Err(error),
        Ok((message, rest)) => if rest.len() == 0 {
            Ok(message)
        } else {
            Err(VirtualMessageCodecError::TrailingBytes(rest.len() as usize))
        },
    }
}

// ---------------------------------------------------------------------------------------------
// Round trip
// ---------------------------------------------------------------------------------------------

/// Whether a value can be carried: numbers must be finite.
pub open spec fn value_is_transmissible(value: InstrumentValue) -> bool {
    match value {
        InstrumentValue::Number(bits) => is_finite(bits),
        _ => true,
    }
}

/// Whether every instrument's parameters have distinct identifiers.
pub open spec fn catalog_is_well_formed(instruments: Seq<InstrumentDescriptorView>) -> bool {
    forall|i: int| 0 <= i < instruments.len() ==> parameter_ids_distinct(#[trigger] instruments[i].parameters)
}

/// Whether a message's content can come back from its encoding: every number is finite and
/// every described instrument is a valid descriptor.
pub open spec fn message_is_transmissible(message: MessageView) -> bool {
    match message {
        MessageView::DescribeResponse { instruments } => catalog_is_well_formed(instruments),
        MessageView::ReadResponse { value } => value_is_transmissible(value),
        MessageView::WriteRequest { value, .. } => value_is_transmissible(value),
        MessageView::WriteResponse { value } => value_is_transmissible(value),
        _ => true,
    }
}

proof fn lemma_split<A>(front: Seq<A>, back: Seq<A>)
    ensures
        (front + back).take(front.len() as int) == front,
        (front + back).skip(front.len() as int) == back,
{
    assert((front + back).take(front.len() as int) =~= front);
    assert((front + back).skip(front.len() as int) =~= back);
}

proof fn lemma_take_u8_of(byte: u8, rest: Seq<u8>)
    ensures
        take_u8(seq![byte] + rest) == Ok::<(u8, Seq<u8>), VirtualMessageCodecError>((byte, rest)),
{
    lemma_split(seq![byte], rest);
}

proof fn lemma_take_bool_of(flag: bool, rest: Seq<u8>)
    ensures
        take_bool(seq![bool_byte(flag)] + rest) == Ok::<(bool, Seq<u8>), VirtualMessageCodecError>((flag, rest)),
{
    lemma_take_u8_of(bool_byte(flag), rest);
}

proof fn lemma_take_u16_of(value: u16, rest: Seq<u8>)
    ensures
        take_u16(u16_le_bytes(value) + rest) == Ok::<(u16, Seq<u8>), VirtualMessageCodecError>((value, rest)),
{
    lemma_u16_round_trip(value);
    lemma_split(u16_le_bytes(value), rest);
}

proof fn lemma_take_u64_of(value: u64, rest: Seq<u8>)
    ensures
        take_u64(u64_le_bytes(value) + rest) == Ok::<(u64, Seq<u8>), VirtualMessageCodecError>((value, rest)),
{
    lemma_u64_round_trip(value);
    lemma_split(u64_le_bytes(value), rest);
}

proof fn lemma_take_i64_of(value: i64, rest: Seq<u8>)
    ensures
        take_i64(u64_le_bytes(value as u64) + rest) == Ok::<(i64, Seq<u8>), VirtualMessageCodecError>((value, rest)),
{
    lemma_take_u64_of(value as u64, rest);
    assert((value as u64) as i64 == value) by (bit_vector);
}

proof fn lemma_take_string_of(text: Seq<char>, rest: Seq<u8>)
    requires
        string_bytes(text) is Ok,
    ensures
        take_string(string_bytes(text)->Ok_0 + rest) == Ok::<(Seq<char>, Seq<u8>), VirtualMessageCodecError>((text, rest)),
{
    let bytes = encode_utf8(text);
    let length = bytes.len() as u16;
    assert(string_bytes(text)->Ok_0 + rest =~= u16_le_bytes(length) + (bytes + rest));
    lemma_take_u16_of(length, bytes + rest);
    lemma_split(bytes, rest);
    vstd::utf8::encode_utf8_valid_utf8(text);
    vstd::utf8::encode_utf8_decode_utf8(text);
}

proof fn lemma_take_value_of(value: InstrumentValue, rest: Seq<u8>)
    requires
        value_is_transmissible(value),
    ensures
        take_value(value_bytes(value) + rest) == Ok::<(InstrumentValue, Seq<u8>), VirtualMessageCodecError>((value, rest)),
{
    match value {
        InstrumentValue::Boolean(flag) => {
            assert(value_bytes(value) + rest =~= seq![VALUE_BOOLEAN] + (seq![bool_byte(flag)] + rest));
            lemma_take_u8_of(VALUE_BOOLEAN, seq![bool_byte(flag)] + rest);
            lemma_take_bool_of(flag, rest);
        },
        InstrumentValue::Integer(integer) => {
            assert(value_bytes(value) + rest =~= seq![VALUE_INTEGER] + (u64_le_bytes(integer as u64)
                + rest));
            lemma_take_u8_of(VALUE_INTEGER, u64_le_bytes(integer as u64) + rest);
            lemma_take_i64_of(integer, rest);
        },
        InstrumentValue::Number(bits) => {
            assert(value_bytes(value) + rest =~= seq![VALUE_NUMBER] + (u64_le_bytes(bits) + rest));
            lemma_take_u8_of(VALUE_NUMBER, u64_le_bytes(bits) + rest);
            lemma_take_u64_of(bits, rest);
        },
    }
}

proof fn lemma_take_range_of(range: Option<ParameterRange>, rest: Seq<u8>)
    ensures
        take_range(range_bytes(range) + rest) == Ok::<(Option<ParameterRange>, Seq<u8>), VirtualMessageCodecError>((range, rest)),
{
    match range {
        None => {
            lemma_take_u8_of(RANGE_NONE, rest);
        },
        Some(ParameterRange::Integer { minimum, maximum }) => {
            let tail = u64_le_bytes(minimum as u64) + (u64_le_bytes(maximum as u64) + rest);
            assert(range_bytes(range) + rest =~= seq![RANGE_INTEGER] + tail);
            lemma_take_u8_of(RANGE_INTEGER, tail);
            lemma_take_i64_of(minimum, u64_le_bytes(maximum as u64) + rest);
            lemma_take_i64_of(maximum, rest);
        },
        Some(ParameterRange::Number { minimum, maximum }) => {
            let tail = u64_le_bytes(minimum) + (u64_le_bytes(maximum) + rest);
            assert(range_bytes(range) + rest =~= seq![RANGE_NUMBER] + tail);
            lemma_take_u8_of(RANGE_NUMBER, tail);
            lemma_take_u64_of(minimum, u64_le_bytes(maximum) + rest);
            lemma_take_u64_of(maximum, rest);
        },
    }
}

proof fn lemma_take_unit_of(unit: Option<Seq<char>>, rest: Seq<u8>)
    requires
        unit_bytes(unit) is Ok,
    ensures
        take_unit(unit_bytes(unit)->Ok_0 + rest) == Ok::<(Option<Seq<char>>, Seq<u8>), VirtualMessageCodecError>((unit, rest)),
{
    match unit {
        None => {
            lemma_take_bool_of(false, rest);
        },
        Some(text) => {
            let bytes = string_bytes(text)->Ok_0;
            assert(unit_bytes(unit)->Ok_0 + rest =~= seq![bool_byte(true)] + (bytes + rest));
            lemma_take_bool_of(true, bytes + rest);
            lemma_take_string_of(text, rest);
        },
    }
}

proof fn lemma_take_parameter_names_of(parameter: ParameterDescriptorView, rest: Seq<u8>)
    requires
        parameter_names_bytes(parameter) is Ok,
    ensures
        take_parameter_names(parameter_names_bytes(parameter)->Ok_0 + rest) == Ok::<
            ((u16, Seq<char>, Seq<char>), Seq<u8>),
            VirtualMessageCodecError,
        >(((parameter.id.0, parameter.key, parameter.name), rest)),
{
    let key = string_bytes(parameter.key)->Ok_0;
    let name = string_bytes(parameter.name)->Ok_0;
    assert(parameter_names_bytes(parameter)->Ok_0 + rest =~= u16_le_bytes(parameter.id.0) + (key + (
    name + rest)));
    lemma_take_u16_of(parameter.id.0, key + (name + rest));
    lemma_take_string_of(parameter.key, name + rest);
    lemma_take_string_of(parameter.name, rest);
}

proof fn lemma_take_parameter_traits_of(parameter: ParameterDescriptorView, rest: Seq<u8>)
    ensures
        take_parameter_traits(parameter_traits_bytes(parameter) + rest) == Ok::<
            ((ParameterAccess, ParameterValueType, bool), Seq<u8>),
            VirtualMessageCodecError,
        >(((parameter.access, parameter.value_type, parameter.series), rest)),
{
    let a = access_code(parameter.access);
    let t = value_type_code(parameter.value_type);
    let f = bool_byte(parameter.series);
    assert(parameter_traits_bytes(parameter) + rest =~= seq![a] + (seq![t] + (seq![f] + rest)));
    lemma_take_u8_of(a, seq![t] + (seq![f] + rest));
    lemma_take_u8_of(t, seq![f] + rest);
    lemma_take_bool_of(parameter.series, rest);
}

proof fn lemma_take_parameter_bounds_of(parameter: ParameterDescriptorView, rest: Seq<u8>)
    requires
        parameter_bounds_bytes(parameter) is Ok,
    ensures
        take_parameter_bounds(parameter_bounds_bytes(parameter)->Ok_0 + rest) == Ok::<
            ((Option<ParameterRange>, Option<Seq<char>>), Seq<u8>),
            VirtualMessageCodecError,
        >(((parameter.range, parameter.unit), rest)),
{
    let unit = unit_bytes(parameter.unit)->Ok_0;
    assert(parameter_bounds_bytes(parameter)->Ok_0 + rest =~= range_bytes(parameter.range) + (unit
        + rest));
    lemma_take_range_of(parameter.range, unit + rest);
    lemma_take_unit_of(parameter.unit, rest);
}

proof fn lemma_take_parameter_of(parameter: ParameterDescriptorView, rest: Seq<u8>)
    requires
        parameter_bytes(parameter) is Ok,
    ensures
        take_parameter(parameter_bytes(parameter)->Ok_0 + rest) == Ok::<(ParameterDescriptorView, Seq<u8>), VirtualMessageCodecError>((parameter, rest)),
{
    reveal(parameter_bytes);
    reveal(take_parameter);
    let names = parameter_names_bytes(parameter)->Ok_0;
    let traits = parameter_traits_bytes(parameter);
    let bounds = parameter_bounds_bytes(parameter)->Ok_0;
    assert(parameter_bytes(parameter)->Ok_0 + rest =~= names + (traits + (bounds + rest)));
    lemma_take_parameter_names_of(parameter, traits + (bounds + rest));
    lemma_take_parameter_traits_of(parameter, bounds + rest);
    lemma_take_parameter_bounds_of(parameter, rest);
}

proof fn lemma_take_parameters_of(parameters: Seq<ParameterDescriptorView>, rest: Seq<u8>)
    requires
        parameters_bytes(parameters) is Ok,
    ensures
        take_parameters(parameters_bytes(parameters)->Ok_0 + rest, parameters.len()) == Ok::<(Seq<ParameterDescriptorView>, Seq<u8>), VirtualMessageCodecError>((parameters, rest)),
    decreases parameters.len(),
{
    if parameters.len() > 0 {
        let earlier = parameters.drop_last();
        let last = parameter_bytes(parameters.last())->Ok_0;
        assert(parameters_bytes(parameters)->Ok_0 + rest =~= parameters_bytes(earlier)->Ok_0 + (
        last + rest));
        lemma_take_parameters_of(earlier, last + rest);
        lemma_take_parameter_of(parameters.last(), rest);
        assert(earlier.push(parameters.last()) =~= parameters);
    } else {
        assert(parameters_bytes(parameters)->Ok_0 + rest =~= rest);
        assert(parameters =~= Seq::<ParameterDescriptorView>::empty());
    }
}

proof fn lemma_take_instrument_of(
    instrument: InstrumentDescriptorView,
    earlier: Seq<InstrumentDescriptorView>,
    rest: Seq<u8>,
)
    requires
        instrument_bytes(instrument) is Ok,
        parameter_ids_distinct(instrument.parameters),
        !has_instrument_id(earlier, instrument.id),
    ensures
        take_instrument(instrument_bytes(instrument)->Ok_0 + rest, earlier) == Ok::<(InstrumentDescriptorView, Seq<u8>), VirtualMessageCodecError>((instrument, rest)),
{
    reveal(instrument_bytes);
    reveal(take_instrument);
    let name = string_bytes(instrument.name)->Ok_0;
    let count = instrument.parameters.len() as u16;
    let parameters = parameters_bytes(instrument.parameters)->Ok_0;
    let b3 = parameters + rest;
    let b2 = u16_le_bytes(count) + b3;
    let b1 = name + b2;
    assert(instrument_bytes(instrument)->Ok_0 + rest =~= u16_le_bytes(instrument.id.0) + b1);
    assert(take_instrument_header(u16_le_bytes(instrument.id.0) + b1, earlier) == Ok::<((u16, Seq<char>, u16), Seq<u8>), VirtualMessageCodecError>(((instrument.id.0, instrument.name, count), b3))) by {
        lemma_take_u16_of(instrument.id.0, b1);
        lemma_take_string_of(instrument.name, b2);
        lemma_take_u16_of(count, b3);
    }
    lemma_take_parameters_of(instrument.parameters, rest);
}

proof fn lemma_take_instruments_of(instruments: Seq<InstrumentDescriptorView>, rest: Seq<u8>)
    requires
        instruments_bytes(instruments) is Ok,
        instrument_ids_distinct(instruments),
        catalog_is_well_formed(instruments),
    ensures
        take_instruments(instruments_bytes(instruments)->Ok_0 + rest, instruments.len()) == Ok::<(Seq<InstrumentDescriptorView>, Seq<u8>), VirtualMessageCodecError>((instruments, rest)),
    decreases instruments.len(),
{
    if instruments.len() > 0 {
        let earlier = instruments.drop_last();
        let last = instrument_bytes(instruments.last())->Ok_0;
        assert(instruments_bytes(instruments)->Ok_0 + rest =~= instruments_bytes(earlier)->Ok_0 + (
        last + rest));
        assert(catalog_is_well_formed(earlier)) by {
            assert forall|i: int| 0 <= i < earlier.len() implies parameter_ids_distinct(
                #[trigger] earlier[i].parameters,
            ) by {
                assert(earlier[i] == instruments[i]);
            }
        }
        lemma_take_instruments_of(earlier, last + rest);
        assert(parameter_ids_distinct(instruments[instruments.len() - 1].parameters));
        assert(!has_instrument_id(earlier, instruments.last().id)) by {
            if has_instrument_id(earlier, instruments.last().id) {
                let i = choose|i: int| 0 <= i < earlier.len() && earlier[i].id == instruments.last().id;
                assert(instruments[i].id == instruments[instruments.len() - 1].id);
            }
        }
        lemma_take_instrument_of(instruments.last(), earlier, rest);
        assert(earlier.push(instruments.last()) =~= instruments);
    } else {
        assert(instruments_bytes(instruments)->Ok_0 + rest =~= rest);
        assert(instruments =~= Seq::<InstrumentDescriptorView>::empty());
    }
}

/// Decoding the payload of a message of the given kind gives back the message, whenever it could
/// be encoded and its numbers are finite and its descriptors valid.
pub proof fn lemma_message_round_trip(message: MessageView)
    requires
        message_is_transmissible(message),
        payload_bytes(message) is Ok,
    ensures
        decode_payload(message_kind(message), payload_bytes(message)->Ok_0) == Ok::<MessageView, VirtualMessageCodecError>(message),
{
    let empty = Seq::<u8>::empty();
    let payload = payload_bytes(message)->Ok_0;
    assert(payload + empty =~= payload);
    match message {
        MessageView::DescribeRequest => {},
        MessageView::DescribeResponse { instruments } => {
            let count = instruments.len() as u16;
            let descriptors = instruments_bytes(instruments)->Ok_0;
            assert(payload =~= u16_le_bytes(count) + (descriptors + empty));
            lemma_take_u16_of(count, descriptors + empty);
            lemma_take_instruments_of(instruments, empty);
        },
        MessageView::ReadRequest { instrument, parameter } => {
            assert(payload =~= u16_le_bytes(instrument.0) + (u16_le_bytes(parameter.0) + empty));
            lemma_take_u16_of(instrument.0, u16_le_bytes(parameter.0) + empty);
            lemma_take_u16_of(parameter.0, empty);
        },
        MessageView::ReadResponse { value } => {
            lemma_take_value_of(value, empty);
        },
        MessageView::WriteRequest { instrument, parameter, value } => {
            let tail = value_bytes(value) + empty;
            assert(payload =~= u16_le_bytes(instrument.0) + (u16_le_bytes(parameter.0) + tail));
            lemma_take_u16_of(instrument.0, u16_le_bytes(parameter.0) + tail);
            lemma_take_u16_of(parameter.0, tail);
            lemma_take_value_of(value, empty);
        },
        MessageView::WriteResponse { value } => {
            lemma_take_value_of(value, empty);
        },
        MessageView::ErrorResponse { code, message: text } => {
            let bytes = string_bytes(text)->Ok_0;
            assert(payload =~= u16_le_bytes(code) + (bytes + empty));
            lemma_take_u16_of(code, bytes + empty);
            lemma_take_string_of(text, empty);
        },
    }
}


// ---------------------------------------------------------------------------------------------
// Messages
// ---------------------------------------------------------------------------------------------

#[derive(Clone, Debug, PartialEq)]
pub enum VirtualInstrumentMessage {
    DescribeRequest,
    DescribeResponse { instruments: Vec<VirtualInstrumentDescriptor> },
    ReadRequest { instrument: VirtualInstrumentId, parameter: VirtualParameterId },
    ReadResponse { value: InstrumentValue },
    WriteRequest {
        instrument: VirtualInstrumentId,
        parameter: VirtualParameterId,
        value: InstrumentValue,
    },
    WriteResponse { value: InstrumentValue },
    ErrorResponse { code: u16, message: String },
}

/// The views of a list of instrument descriptors.
pub open spec fn instrument_views(instruments: Seq<VirtualInstrumentDescriptor>) -> Seq<InstrumentDescriptorView> {
    instruments.map_values(|instrument: VirtualInstrumentDescriptor| instrument@)
}

impl View for VirtualInstrumentMessage {
    type V = MessageView;

    open spec fn view(&self) -> MessageView {
        match self {
            VirtualInstrumentMessage::DescribeRequest => MessageView::DescribeRequest,
            VirtualInstrumentMessage::DescribeResponse { instruments } => MessageView::DescribeResponse {
                instruments: instrument_views(instruments@),
            },
            VirtualInstrumentMessage::ReadRequest { instrument, parameter } => MessageView::ReadRequest {
                instrument: *instrument,
                parameter: *parameter,
            },
            VirtualInstrumentMessage::ReadResponse { value } => MessageView::ReadResponse { value: *value },
            VirtualInstrumentMessage::WriteRequest { instrument, parameter, value } => MessageView::WriteRequest {
                instrument: *instrument,
                parameter: *parameter,
                value: *value,
            },
            VirtualInstrumentMessage::WriteResponse { value } => MessageView::WriteResponse { value: *value },
            VirtualInstrumentMessage::ErrorResponse { code, message } => MessageView::ErrorResponse {
                code: *code,
                message: message@,
            },
        }
    }
}

impl VirtualInstrumentMessage {
    /// The frame carrying this message. A catalog that encodes is well formed (its descriptors'
    /// invariant), so decoding the frame gives back the message whenever its numbers are finite.
    pub fn encode_frame(&self) -> (result: Result<VirtualInstrumentFrame, VirtualMessageCodecError>)
        ensures
            match message_frame(self@) {
                Ok(frame) => result is Ok && result->Ok_0@ == frame,
                Err(error) => result == Err::<VirtualInstrumentFrame, VirtualMessageCodecError>(error),
            },
            result is Ok ==> (self@ matches MessageView::DescribeResponse { instruments }
                ==> catalog_is_well_formed(instruments)),
            result matches Ok(frame) ==> (message_is_transmissible(self@) ==> decode_payload(
                frame@.kind,
                frame@.payload,
            ) == Ok::<MessageView, VirtualMessageCodecError>(self@)),
    {
        let mut encoder = Encoder::new();
        let kind = match self {
            VirtualInstrumentMessage::DescribeRequest => MessageKind::DescribeRequest,
            VirtualInstrumentMessage::DescribeResponse { instruments } => {
                match encode_instrument_catalog(&mut encoder, instruments.as_slice()) {
                    Ok(()) => {},
                    Err(error) => return Err(error),
                }
                MessageKind::DescribeResponse
            },
            VirtualInstrumentMessage::ReadRequest { instrument, parameter } => {
                encode_parameter_address(&mut encoder, *instrument, *parameter);
                MessageKind::ReadRequest
            },
            VirtualInstrumentMessage::ReadResponse { value } => {
                encode_value(&mut encoder, *value);
                MessageKind::ReadResponse
            },
            VirtualInstrumentMessage::WriteRequest { instrument, parameter, value } => {
                encode_parameter_address(&mut encoder, *instrument, *parameter);
                encode_value(&mut encoder, *value);
                MessageKind::WriteRequest
            },
            VirtualInstrumentMessage::WriteResponse { value } => {
                encode_value(&mut encoder, *value);
                MessageKind::WriteResponse
            },
            VirtualInstrumentMessage::ErrorResponse { code, message } => {
                encoder.write_u16(*code);
                match encoder.write_string(message.as_str()) {
                    Ok(()) => {},
                    Err(error) => return Err(error),
                }
                MessageKind::ErrorResponse
            },
        };
        assert(encoder.bytes@ =~= payload_bytes(self@)->Ok_0);
        proof {
            if message_is_transmissible(self@) {
                lemma_message_round_trip(self@);
            }
        }
        match VirtualInstrumentFrame::new(kind, encoder.finish()) {
            Ok(frame) => Ok(frame),
            Err(error) => Err(VirtualMessageCodecError::Frame(error)),
        }
    }

    /// The kind of frame that carries this message.
    pub fn kind(&self) -> (kind: MessageKind)
        ensures
            kind == message_kind(self@),
    {
        match self {
            VirtualInstrumentMessage::DescribeRequest => MessageKind::DescribeRequest,
            VirtualInstrumentMessage::DescribeResponse { .. } => MessageKind::DescribeResponse,
            VirtualInstrumentMessage::ReadRequest { .. } => MessageKind::ReadRequest,
            VirtualInstrumentMessage::ReadResponse { .. } => MessageKind::ReadResponse,
            VirtualInstrumentMessage::WriteRequest { .. } => MessageKind::WriteRequest,
            VirtualInstrumentMessage::WriteResponse { .. } => MessageKind::WriteResponse,
            VirtualInstrumentMessage::ErrorResponse { .. } => MessageKind::ErrorResponse,
        }
    }

    /// The message carried by a frame.
    pub fn decode_frame(frame: &VirtualInstrumentFrame) -> (result: Result<Self, VirtualMessageCodecError>)
        ensures
            match decode_payload(frame@.kind, frame@.payload) {
                Ok(message) => result is Ok && result->Ok_0@ == message,
                Err(error) => result == Err::<Self, VirtualMessageCodecError>(error),
            },
    {
        let mut decoder = Decoder::new(frame.payload());
        let ghost start = decoder.remaining();
        let message = match frame.kind() {
            MessageKind::DescribeRequest => VirtualInstrumentMessage::DescribeRequest,
            MessageKind::DescribeResponse => match decode_instrument_catalog(&mut decoder) {
                Ok(instruments) => VirtualInstrumentMessage::DescribeResponse { instruments },
                Err(error) => return Err(error),
            },
            MessageKind::ReadRequest => match decode_parameter_address(&mut decoder) {
                Ok((instrument, parameter)) => VirtualInstrumentMessage::ReadRequest {
                    instrument,
                    parameter,
                },
                Err(error) => return Err(error),
            },
            MessageKind::ReadResponse => match decode_value(&mut decoder) {
                Ok(value) => VirtualInstrumentMessage::ReadResponse { value },
                Err(error) => return Err(error),
            },
            MessageKind::WriteRequest => {
                let (instrument, parameter) = match decode_parameter_address(&mut decoder) {
                    Ok(address) => address,
                    Err(error) => return Err(error),
                };
                let value = match decode_value(&mut decoder) {
                    Ok(value) => value,
                    Err(error) => return Err(error),
                };
                VirtualInstrumentMessage::WriteRequest { instrument, parameter, value }
            },
            MessageKind::WriteResponse => match decode_value(&mut decoder) {
                Ok(value) => VirtualInstrumentMessage::WriteResponse { value },
                Err(error) => return Err(error),
            },
            MessageKind::ErrorResponse => {
                let code = match decoder.read_u16() {
                    Ok(code) => code,
                    Err(error) => return Err(error),
                };
                let message = match decoder.read_string() {
                    Ok(message) => message,
                    Err(error) => return Err(error),
                };
                VirtualInstrumentMessage::ErrorResponse { code, message }
            },
        };
        assert(take_message(frame@.kind, start) == Ok::<(MessageView, Seq<u8>), VirtualMessageCodecError>((message@, decoder.remaining())));
        match decoder.finish() {
            Ok(()) => Ok(message),
            Err(error) => Err(error),
        }
    }
}

// ---------------------------------------------------------------------------------------------
// Writers
// ---------------------------------------------------------------------------------------------

/// Whether a writer's result and output agree with what the encoding specifies.
pub open spec fn wrote(
    result: Result<(), VirtualMessageCodecError>,
    expected: Result<Seq<u8>, VirtualMessageCodecError>,
    before: Seq<u8>,
    after: Seq<u8>,
) -> bool {
    match expected {
        Ok(bytes) => result is Ok && after == before + bytes,
        Err(error) => result == Err::<(), VirtualMessageCodecError>(error),
    }
}

struct Encoder {
    bytes: Vec<u8>,
}

impl Encoder {
    fn new() -> (encoder: Self)
        ensures
            encoder.bytes@ == Seq::<u8>::empty(),
    {
        Encoder { bytes: Vec::new() }
    }

    fn finish(self) -> (bytes: Vec<u8>)
        ensures
            bytes@ == self.bytes@,
    {
        self.bytes
    }

    fn write_u8(&mut self, value: u8)
        ensures
            final(self).bytes@ == old(self).bytes@ + seq![value],
    {
        self.bytes.push(value);
        assert(self.bytes@ =~= old(self).bytes@ + seq![value]);
    }

    fn write_bool(&mut self, value: bool)
        ensures
            final(self).bytes@ == old(self).bytes@ + seq![bool_byte(value)],
    {
        self.write_u8(if value { 1 } else { 0 });
    }

    fn write_u16(&mut self, value: u16)
        ensures
            final(self).bytes@ == old(self).bytes@ + u16_le_bytes(value),
    {
        push_le_u16(&mut self.bytes, value);
    }

    fn write_i64(&mut self, value: i64)
        ensures
            final(self).bytes@ == old(self).bytes@ + u64_le_bytes(value as u64),
    {
        push_le_u64(&mut self.bytes, value as u64);
    }

    fn write_u64(&mut self, value: u64)
        ensures
            final(self).bytes@ == old(self).bytes@ + u64_le_bytes(value),
    {
        push_le_u64(&mut self.bytes, value);
    }

    fn write_count(&mut self, collection: &'static str, length: usize) -> (result: Result<(), VirtualMessageCodecError>)
        ensures
            wrote(result, count_bytes(collection, length as nat), old(self).bytes@, final(self).bytes@),
    {
        if length > U16_LIMIT {
            return Err(VirtualMessageCodecError::CollectionTooLong { collection, length });
        }
        self.write_u16(length as u16);
        Ok(())
    }

    fn write_string(&mut self, value: &str) -> (result: Result<(), VirtualMessageCodecError>)
        ensures
            wrote(result, string_bytes(value@), old(self).bytes@, final(self).bytes@),
    {
        let bytes = value.as_bytes();
        if bytes.len() > U16_LIMIT {
            return Err(VirtualMessageCodecError::StringTooLong(bytes.len()));
        }
        self.write_u16(bytes.len() as u16);
        push_bytes(&mut self.bytes, bytes);
        assert(self.bytes@ =~= old(self).bytes@ + string_bytes(value@)->Ok_0);
        Ok(())
    }
}

fn encode_parameter_address(encoder: &mut Encoder, instrument: VirtualInstrumentId, parameter: VirtualParameterId)
    ensures
        final(encoder).bytes@ == old(encoder).bytes@ + address_bytes(instrument, parameter),
{
    encoder.write_u16(instrument.value());
    encoder.write_u16(parameter.value());
    assert(encoder.bytes@ =~= old(encoder).bytes@ + address_bytes(instrument, parameter));
}

fn encode_value(encoder: &mut Encoder, value: InstrumentValue)
    ensures
        final(encoder).bytes@ == old(encoder).bytes@ + value_bytes(value),
{
    match value {
        InstrumentValue::Boolean(flag) => {
            encoder.write_u8(VALUE_BOOLEAN);
            encoder.write_bool(flag);
        },
        InstrumentValue::Integer(integer) => {
            encoder.write_u8(VALUE_INTEGER);
            encoder.write_i64(integer);
        },
        InstrumentValue::Number(bits) => {
            encoder.write_u8(VALUE_NUMBER);
            encoder.write_u64(bits);
        },
    }
    assert(encoder.bytes@ =~= old(encoder).bytes@ + value_bytes(value));
}

fn encode_access(access: ParameterAccess) -> (code: u8)
    ensures
        code == access_code(access),
{
    match access {
        ParameterAccess::ReadOnly => ACCESS_READ_ONLY,
        ParameterAccess::WriteOnly => ACCESS_WRITE_ONLY,
        ParameterAccess::ReadWrite => ACCESS_READ_WRITE,
    }
}

fn encode_parameter_type(value_type: ParameterValueType) -> (code: u8)
    ensures
        code == value_type_code(value_type),
{
    match value_type {
        ParameterValueType::Boolean => TYPE_BOOLEAN,
        ParameterValueType::Integer => TYPE_INTEGER,
        ParameterValueType::Number => TYPE_NUMBER,
    }
}

fn encode_parameter_names(encoder: &mut Encoder, parameter: &VirtualParameterDescriptor) -> (result: Result<(), VirtualMessageCodecError>)
    ensures
        wrote(result, parameter_names_bytes(parameter@), old(encoder).bytes@, final(encoder).bytes@),
{
    let ghost start = encoder.bytes@;
    encoder.write_u16(parameter.id().value());
    match encoder.write_string(parameter.key()) {
        Ok(()) => {},
        Err(error) => return Err(error),
    }
    match encoder.write_string(parameter.name()) {
        Ok(()) => {},
        Err(error) => return Err(error),
    }
    assert(encoder.bytes@ =~= start + parameter_names_bytes(parameter@)->Ok_0);
    Ok(())
}

fn encode_parameter_bounds(encoder: &mut Encoder, parameter: &VirtualParameterDescriptor) -> (result: Result<(), VirtualMessageCodecError>)
    ensures
        wrote(result, parameter_bounds_bytes(parameter@), old(encoder).bytes@, final(encoder).bytes@),
{
    let ghost start = encoder.bytes@;
    match parameter.range() {
        None => {
            encoder.write_u8(RANGE_NONE);
        },
        Some(ParameterRange::Integer { minimum, maximum }) => {
            encoder.write_u8(RANGE_INTEGER);
            encoder.write_i64(minimum);
            encoder.write_i64(maximum);
        },
        Some(ParameterRange::Number { minimum, maximum }) => {
            encoder.write_u8(RANGE_NUMBER);
            encoder.write_u64(minimum);
            encoder.write_u64(maximum);
        },
    }
    let ghost after_range = encoder.bytes@;
    assert(after_range =~= start + range_bytes(parameter@.range));
    match parameter.unit() {
        Some(unit) => {
            encoder.write_bool(true);
            match encoder.write_string(unit) {
                Ok(()) => {},
                Err(error) => return Err(error),
            }
        },
        None => {
            encoder.write_bool(false);
        },
    }
    assert(encoder.bytes@ =~= start + parameter_bounds_bytes(parameter@)->Ok_0);
    Ok(())
}

fn encode_parameter_descriptor(encoder: &mut Encoder, parameter: &VirtualParameterDescriptor) -> (result: Result<(), VirtualMessageCodecError>)
    ensures
        wrote(result, parameter_bytes(parameter@), old(encoder).bytes@, final(encoder).bytes@),
{
    proof {
        reveal(parameter_bytes);
    }
    let ghost start = encoder.bytes@;
    match encode_parameter_names(encoder, parameter) {
        Ok(()) => {},
        Err(error) => return Err(error),
    }
    let ghost after_names = encoder.bytes@;
    encoder.write_u8(encode_access(parameter.access()));
    encoder.write_u8(encode_parameter_type(parameter.value_type()));
    encoder.write_bool(parameter.series());
    let ghost after_traits = encoder.bytes@;
    assert(after_traits =~= after_names + parameter_traits_bytes(parameter@));
    match encode_parameter_bounds(encoder, parameter) {
        Ok(()) => {},
        Err(error) => return Err(error),
    }
    assert(encoder.bytes@ =~= start + parameter_bytes(parameter@)->Ok_0);
    Ok(())
}

/// An error in the items before position `count` is the error of the whole list.
proof fn lemma_parameters_bytes_prefix(parameters: Seq<ParameterDescriptorView>, count: int)
    requires
        0 <= count <= parameters.len(),
    ensures
        parameters_bytes(parameters.take(count)) is Err ==> parameters_bytes(parameters)
            == parameters_bytes(parameters.take(count)),
        count < parameters.len() ==> parameters.take(count + 1).drop_last() == parameters.take(count)
            && parameters.take(count + 1).last() == parameters[count],
    decreases parameters.len() - count,
{
    if count < parameters.len() {
        assert(parameters.take(count + 1).drop_last() =~= parameters.take(count));
        lemma_parameters_bytes_prefix(parameters, count + 1);
    } else {
        assert(parameters.take(count) =~= parameters);
    }
}

/// An error in the items before position `count` is the error of the whole list.
proof fn lemma_instruments_bytes_prefix(instruments: Seq<InstrumentDescriptorView>, count: int)
    requires
        0 <= count <= instruments.len(),
    ensures
        instruments_bytes(instruments.take(count)) is Err ==> instruments_bytes(instruments)
            == instruments_bytes(instruments.take(count)),
        count < instruments.len() ==> instruments.take(count + 1).drop_last() == instruments.take(count)
            && instruments.take(count + 1).last() == instruments[count],
    decreases instruments.len() - count,
{
    if count < instruments.len() {
        assert(instruments.take(count + 1).drop_last() =~= instruments.take(count));
        lemma_instruments_bytes_prefix(instruments, count + 1);
    } else {
        assert(instruments.take(count) =~= instruments);
    }
}

fn encode_instrument(encoder: &mut Encoder, instrument: &VirtualInstrumentDescriptor) -> (result: Result<(), VirtualMessageCodecError>)
    ensures
        wrote(result, instrument_bytes(instrument@), old(encoder).bytes@, final(encoder).bytes@),
        parameter_ids_distinct(instrument@.parameters),
{
    proof {
        reveal(instrument_bytes);
    }
    let parameters = instrument.parameters();
    let ghost start = encoder.bytes@;
    encoder.write_u16(instrument.id().value());
    match encoder.write_string(instrument.name()) {
        Ok(()) => {},
        Err(error) => return Err(error),
    }
    let ghost views = instrument@.parameters;
    match encoder.write_count("parameters", parameters.len()) {
        Ok(()) => {},
        Err(error) => return Err(error),
    }
    let ghost mark = encoder.bytes@;
    let mut index: usize = 0;
    while index < parameters.len()
        invariant
            index <= parameters@.len(),
            views == parameter_views(parameters@),
            views == instrument@.parameters,
            string_bytes(instrument@.name) is Ok,
            count_bytes("parameters", views.len()) is Ok,
            mark == start + u16_le_bytes(instrument@.id.0) + string_bytes(instrument@.name)->Ok_0
                + count_bytes("parameters", views.len())->Ok_0,
            parameters_bytes(views.take(index as int)) is Ok,
            encoder.bytes@ == mark + parameters_bytes(views.take(index as int))->Ok_0,
            parameter_ids_distinct(instrument@.parameters),
        decreases parameters.len() - index,
    {
        proof {
            lemma_parameters_bytes_prefix(views, index as int);
        }
        let ghost before = encoder.bytes@;
        assert(views[index as int] == parameters@[index as int]@);
        match encode_parameter_descriptor(encoder, &parameters[index]) {
            Ok(()) => {},
            Err(error) => {
                proof {
                    reveal(instrument_bytes);
                    lemma_parameters_bytes_prefix(views, index + 1);
                    assert(parameters_bytes(views.take(index + 1)) == Err::<Seq<u8>, VirtualMessageCodecError>(error));
                }
                return Err(error);
            },
        }
        assert(encoder.bytes@ =~= mark + parameters_bytes(views.take(index + 1))->Ok_0);
        index += 1;
    }
    assert(views.take(parameters@.len() as int) =~= views);
    assert(encoder.bytes@ =~= start + instrument_bytes(instrument@)->Ok_0);
    Ok(())
}

/// At most one position is the first repeat, so `first_instrument_repeat` names it.
proof fn lemma_first_instrument_repeat(instruments: Seq<InstrumentDescriptorView>, index: int)
    requires
        is_first_instrument_repeat(instruments, index),
    ensures
        first_instrument_repeat(instruments) == index,
        !instrument_ids_distinct(instruments),
{
    let chosen = first_instrument_repeat(instruments);
    assert(is_first_instrument_repeat(instruments, chosen));
    if chosen < index {
        assert(!repeats_earlier_instrument(instruments, chosen));
    } else if index < chosen {
        assert(!repeats_earlier_instrument(instruments, index));
    }
    let i = choose|i: int| 0 <= i < index && instruments[i].id == instruments[index].id;
    assert(instruments[i].id == instruments[index].id);
}

fn encode_instrument_catalog(encoder: &mut Encoder, instruments: &[VirtualInstrumentDescriptor]) -> (result: Result<(), VirtualMessageCodecError>)
    ensures
        wrote(result, catalog_bytes(instrument_views(instruments@)), old(encoder).bytes@, final(encoder).bytes@),
        result is Ok ==> catalog_is_well_formed(instrument_views(instruments@)),
{
    broadcast use vstd::std_specs::hash::group_hash_axioms;

    let ghost views = instrument_views(instruments@);
    let mut instrument_ids: HashSet<u16> = HashSet::new();
    let mut index: usize = 0;
    while index < instruments.len()
        invariant
            index <= instruments@.len(),
            views == instrument_views(instruments@),
            forall|raw: u16| #[trigger] instrument_ids@.contains(raw) <==> exists|i: int|
                0 <= i < index && views[i].id.0 == raw,
            forall|k: int| 0 <= k < index ==> !repeats_earlier_instrument(views, k),
        decreases instruments.len() - index,
    {
        let id = instruments[index].id();
        assert(views[index as int] == instruments@[index as int]@);
        if !instrument_ids.insert(id.value()) {
            proof {
                let i = choose|i: int| 0 <= i < index && views[i].id.0 == id.0;
                assert(views[i].id == views[index as int].id);
                assert(repeats_earlier_instrument(views, index as int));
                lemma_first_instrument_repeat(views, index as int);
            }
            return Err(VirtualMessageCodecError::DuplicateInstrumentId(id));
        }
        proof {
            assert forall|i: int| 0 <= i < index implies views[i].id != views[index as int].id by {
                assert(instrument_ids@.contains(views[i].id.0));
            }
        }
        index += 1;
    }
    assert(instrument_ids_distinct(views)) by {
        assert forall|i: int, j: int| 0 <= i < j < views.len() implies views[i].id != views[j].id by {
            assert(!repeats_earlier_instrument(views, j));
        }
    }
    match encoder.write_count("instruments", instruments.len()) {
        Ok(()) => {},
        Err(error) => return Err(error),
    }
    let ghost mark = encoder.bytes@;
    let mut index: usize = 0;
    while index < instruments.len()
        invariant
            index <= instruments@.len(),
            views == instrument_views(instruments@),
            instrument_ids_distinct(views),
            count_bytes("instruments", views.len()) is Ok,
            mark == old(encoder).bytes@ + count_bytes("instruments", views.len())->Ok_0,
            instruments_bytes(views.take(index as int)) is Ok,
            encoder.bytes@ == mark + instruments_bytes(views.take(index as int))->Ok_0,
            forall|k: int| 0 <= k < index ==> parameter_ids_distinct(#[trigger] views[k].parameters),
        decreases instruments.len() - index,
    {
        proof {
            lemma_instruments_bytes_prefix(views, index as int);
        }
        assert(views[index as int] == instruments@[index as int]@);
        match encode_instrument(encoder, &instruments[index]) {
            Ok(()) => {},
            Err(error) => {
                proof {
                    lemma_instruments_bytes_prefix(views, index + 1);
                }
                return Err(error);
            },
        }
        assert(encoder.bytes@ =~= mark + instruments_bytes(views.take(index + 1))->Ok_0);
        index += 1;
    }
    assert(views.take(instruments@.len() as int) =~= views);
    assert(encoder.bytes@ =~= old(encoder).bytes@ + catalog_bytes(views)->Ok_0);
    Ok(())
}

// ---------------------------------------------------------------------------------------------
// Readers
// ---------------------------------------------------------------------------------------------

/// Whether a reader's result and remaining bytes agree with what the decoding specifies.
pub open spec fn read_as<T>(
    expected: Result<(T, Seq<u8>), VirtualMessageCodecError>,
    result: Result<T, VirtualMessageCodecError>,
    after: Seq<u8>,
) -> bool {
    match expected {
        Ok((value, rest)) => result == Ok::<T, VirtualMessageCodecError>(value) && after == rest,
        Err(error) => result == Err::<T, VirtualMessageCodecError>(error),
    }
}

struct Decoder<'a> {
    bytes: &'a [u8],
    position: usize,
}

impl<'a> Decoder<'a> {
    spec fn valid(&self) -> bool {
        self.position <= self.bytes@.len()
    }

    spec fn remaining(&self) -> Seq<u8> {
        self.bytes@.skip(self.position as int)
    }

    fn new(bytes: &'a [u8]) -> (decoder: Self)
        ensures
            decoder.valid(),
            decoder.remaining() == bytes@,
    {
        let decoder = Decoder { bytes, position: 0 };
        assert(decoder.remaining() =~= bytes@);
        decoder
    }

    fn finish(self) -> (result: Result<(), VirtualMessageCodecError>)
        requires
            self.valid(),
        ensures
            result == (if self.remaining().len() == 0 {
                Ok::<(), VirtualMessageCodecError>(())
            } else {
                Err(VirtualMessageCodecError::TrailingBytes(self.remaining().len() as usize))
            }),
    {
        let remaining = self.bytes.len() - self.position;
        if remaining == 0 {
            Ok(())
        } else {
            Err(VirtualMessageCodecError::TrailingBytes(remaining))
        }
    }

    fn read_u8(&mut self) -> (result: Result<u8, VirtualMessageCodecError>)
        requires
            old(self).valid(),
        ensures
            final(self).valid(),
            read_as(take_u8(old(self).remaining()), result, final(self).remaining()),
    {
        if self.position >= self.bytes.len() {
            return Err(VirtualMessageCodecError::UnexpectedEnd);
        }
        let value = self.bytes[self.position];
        self.position = self.position + 1;
        assert(self.remaining() =~= old(self).remaining().skip(1));
        Ok(value)
    }

    fn read_bool(&mut self) -> (result: Result<bool, VirtualMessageCodecError>)
        requires
            old(self).valid(),
        ensures
            final(self).valid(),
            read_as(take_bool(old(self).remaining()), result, final(self).remaining()),
    {
        match self.read_u8() {
            Err(error) => Err(error),
            Ok(0) => Ok(false),
            Ok(1) => Ok(true),
            Ok(value) => Err(VirtualMessageCodecError::InvalidBoolean(value)),
        }
    }

    fn read_u16(&mut self) -> (result: Result<u16, VirtualMessageCodecError>)
        requires
            old(self).valid(),
        ensures
            final(self).valid(),
            read_as(take_u16(old(self).remaining()), result, final(self).remaining()),
    {
        if self.bytes.len() - self.position < 2 {
            return Err(VirtualMessageCodecError::UnexpectedEnd);
        }
        let value = read_le_u16(self.bytes[self.position], self.bytes[self.position + 1]);
        self.position = self.position + 2;
        assert(self.remaining() =~= old(self).remaining().skip(2));
        Ok(value)
    }

    fn read_u64(&mut self) -> (result: Result<u64, VirtualMessageCodecError>)
        requires
            old(self).valid(),
        ensures
            final(self).valid(),
            read_as(take_u64(old(self).remaining()), result, final(self).remaining()),
    {
        if self.bytes.len() - self.position < 8 {
            return Err(VirtualMessageCodecError::UnexpectedEnd);
        }
        let value = read_le_u64(self.bytes, self.position);
        assert(old(self).remaining().take(8) =~= self.bytes@.subrange(
            self.position as int,
            self.position + 8,
        ));
        self.position = self.position + 8;
        assert(self.remaining() =~= old(self).remaining().skip(8));
        Ok(value)
    }

    fn read_i64(&mut self) -> (result: Result<i64, VirtualMessageCodecError>)
        requires
            old(self).valid(),
        ensures
            final(self).valid(),
            read_as(take_i64(old(self).remaining()), result, final(self).remaining()),
    {
        match self.read_u64() {
            Ok(value) => Ok(value as i64),
            Err(error) => Err(error),
        }
    }

    fn read_string(&mut self) -> (result: Result<String, VirtualMessageCodecError>)
        requires
            old(self).valid(),
        ensures
            final(self).valid(),
            match take_string(old(self).remaining()) {
                Ok((text, rest)) => result is Ok && result->Ok_0@ == text && final(self).remaining()
                    == rest,
                Err(error) => result == Err::<String, VirtualMessageCodecError>(error),
            },
    {
        let length = match self.read_u16() {
            Ok(length) => length as usize,
            Err(error) => return Err(error),
        };
        let ghost after_length = self.remaining();
        if length > self.bytes.len() - self.position {
            return Err(VirtualMessageCodecError::UnexpectedEnd);
        }
        let start = self.position;
        let end = start + length;
        let raw = copy_range(self.bytes, start, end);
        assert(raw@ =~= after_length.take(length as int));
        self.position = end;
        assert(self.remaining() =~= after_length.skip(length as int));
        match utf8_text(raw.as_slice()) {
            Some(text) => Ok(text),
            None => Err(VirtualMessageCodecError::InvalidUtf8),
        }
    }
}

fn decode_parameter_address(decoder: &mut Decoder) -> (result: Result<(VirtualInstrumentId, VirtualParameterId), VirtualMessageCodecError>)
    requires
        old(decoder).valid(),
    ensures
        final(decoder).valid(),
        read_as(take_address(old(decoder).remaining()), result, final(decoder).remaining()),
{
    let instrument = match decoder.read_u16() {
        Ok(raw) => VirtualInstrumentId::new(raw),
        Err(error) => return Err(error),
    };
    let parameter = match decoder.read_u16() {
        Ok(raw) => VirtualParameterId::new(raw),
        Err(error) => return Err(error),
    };
    Ok((instrument, parameter))
}

fn decode_value(decoder: &mut Decoder) -> (result: Result<InstrumentValue, VirtualMessageCodecError>)
    requires
        old(decoder).valid(),
    ensures
        final(decoder).valid(),
        read_as(take_value(old(decoder).remaining()), result, final(decoder).remaining()),
{
    let tag = match decoder.read_u8() {
        Ok(tag) => tag,
        Err(error) => return Err(error),
    };
    if tag == VALUE_BOOLEAN {
        match decoder.read_bool() {
            Ok(flag) => Ok(InstrumentValue::Boolean(flag)),
            Err(error) => Err(error),
        }
    } else if tag == VALUE_INTEGER {
        match decoder.read_i64() {
            Ok(integer) => Ok(InstrumentValue::Integer(integer)),
            Err(error) => Err(error),
        }
    } else if tag == VALUE_NUMBER {
        match decoder.read_u64() {
            Ok(bits) => {
                if !finite(bits) {
                    return Err(VirtualMessageCodecError::NonFiniteNumber);
                }
                Ok(InstrumentValue::Number(bits))
            },
            Err(error) => Err(error),
        }
    } else {
        Err(VirtualMessageCodecError::UnknownValueType(tag))
    }
}

fn decode_access(value: u8) -> (result: Result<ParameterAccess, VirtualMessageCodecError>)
    ensures
        result == access_of_code(value),
{
    if value == ACCESS_READ_ONLY {
        Ok(ParameterAccess::ReadOnly)
    } else if value == ACCESS_WRITE_ONLY {
        Ok(ParameterAccess::WriteOnly)
    } else if value == ACCESS_READ_WRITE {
        Ok(ParameterAccess::ReadWrite)
    } else {
        Err(VirtualMessageCodecError::UnknownParameterAccess(value))
    }
}

fn decode_parameter_type(value: u8) -> (result: Result<ParameterValueType, VirtualMessageCodecError>)
    ensures
        result == value_type_of_code(value),
{
    if value == TYPE_BOOLEAN {
        Ok(ParameterValueType::Boolean)
    } else if value == TYPE_INTEGER {
        Ok(ParameterValueType::Integer)
    } else if value == TYPE_NUMBER {
        Ok(ParameterValueType::Number)
    } else {
        Err(VirtualMessageCodecError::UnknownParameterValueType(value))
    }
}

fn decode_range(decoder: &mut Decoder) -> (result: Result<Option<ParameterRange>, VirtualMessageCodecError>)
    requires
        old(decoder).valid(),
    ensures
        final(decoder).valid(),
        read_as(take_range(old(decoder).remaining()), result, final(decoder).remaining()),
{
    let tag = match decoder.read_u8() {
        Ok(tag) => tag,
        Err(error) => return Err(error),
    };
    if tag == RANGE_NONE {
        Ok(None)
    } else if tag == RANGE_INTEGER {
        let minimum = match decoder.read_i64() {
            Ok(value) => value,
            Err(error) => return Err(error),
        };
        let maximum = match decoder.read_i64() {
            Ok(value) => value,
            Err(error) => return Err(error),
        };
        Ok(Some(ParameterRange::Integer { minimum, maximum }))
    } else if tag == RANGE_NUMBER {
        let minimum = match decoder.read_u64() {
            Ok(value) => value,
            Err(error) => return Err(error),
        };
        let maximum = match decoder.read_u64() {
            Ok(value) => value,
            Err(error) => return Err(error),
        };
        Ok(Some(ParameterRange::Number { minimum, maximum }))
    } else {
        Err(VirtualMessageCodecError::UnknownRangeType(tag))
    }
}

fn decode_parameter_descriptor(decoder: &mut Decoder) -> (result: Result<VirtualParameterDescriptor, VirtualMessageCodecError>)
    requires
        old(decoder).valid(),
    ensures
        final(decoder).valid(),
        match take_parameter(old(decoder).remaining()) {
            Ok((parameter, rest)) => result is Ok && result->Ok_0@ == parameter
                && final(decoder).remaining() == rest,
            Err(error) => result == Err::<VirtualParameterDescriptor, VirtualMessageCodecError>(error),
        },
{
    proof {
        reveal(take_parameter);
    }
    let ghost start = decoder.remaining();
    let id = match decoder.read_u16() {
        Ok(raw) => VirtualParameterId::new(raw),
        Err(error) => return Err(error),
    };
    let key = match decoder.read_string() {
        Ok(key) => key,
        Err(error) => return Err(error),
    };
    let name = match decoder.read_string() {
        Ok(name) => name,
        Err(error) => return Err(error),
    };
    assert(take_parameter_names(start) == Ok::<((u16, Seq<char>, Seq<char>), Seq<u8>), VirtualMessageCodecError>(((id.0, key@, name@), decoder.remaining())));
    let ghost after_names = decoder.remaining();
    let access = match decoder.read_u8() {
        Ok(code) => match decode_access(code) {
            Ok(access) => access,
            Err(error) => return Err(error),
        },
        Err(error) => return Err(error),
    };
    let value_type = match decoder.read_u8() {
        Ok(code) => match decode_parameter_type(code) {
            Ok(value_type) => value_type,
            Err(error) => return Err(error),
        },
        Err(error) => return Err(error),
    };
    let series = match decoder.read_bool() {
        Ok(series) => series,
        Err(error) => return Err(error),
    };
    assert(take_parameter_traits(after_names) == Ok::<((ParameterAccess, ParameterValueType, bool), Seq<u8>), VirtualMessageCodecError>(((access, value_type, series), decoder.remaining())));
    let ghost after_traits = decoder.remaining();
    let range = match decode_range(decoder) {
        Ok(range) => range,
        Err(error) => return Err(error),
    };
    let ghost after_range = decoder.remaining();
    let unit = match decoder.read_bool() {
        Ok(true) => match decoder.read_string() {
            Ok(unit) => Some(unit),
            Err(error) => return Err(error),
        },
        Ok(false) => None,
        Err(error) => return Err(error),
    };
    assert(take_unit(after_range) == Ok::<(Option<Seq<char>>, Seq<u8>), VirtualMessageCodecError>((match unit {
        Some(text) => Some(text@),
        None => None,
    }, decoder.remaining())));
    let mut descriptor = VirtualParameterDescriptor::new(id, key.as_str(), name.as_str(), access, value_type).with_series(series);
    match range {
        Some(range) => {
            descriptor = descriptor.with_range(range);
        },
        None => {},
    }
    match unit {
        Some(unit) => {
            descriptor = descriptor.with_unit(unit.as_str());
        },
        None => {},
    }
    Ok(descriptor)
}

fn decode_instrument(
    decoder: &mut Decoder,
    instrument_ids: &mut HashSet<u16>,
    Ghost(earlier): Ghost<Seq<InstrumentDescriptorView>>,
) -> (result: Result<VirtualInstrumentDescriptor, VirtualMessageCodecError>)
    requires
        old(decoder).valid(),
        forall|raw: u16| #[trigger] old(instrument_ids)@.contains(raw) <==> has_instrument_id(earlier, VirtualInstrumentId(raw)),
    ensures
        final(decoder).valid(),
        match take_instrument(old(decoder).remaining(), earlier) {
            Ok((instrument, rest)) => result is Ok && result->Ok_0@ == instrument
                && final(decoder).remaining() == rest
                && final(instrument_ids)@ == old(instrument_ids)@.insert(instrument.id.0),
            Err(error) => result == Err::<VirtualInstrumentDescriptor, VirtualMessageCodecError>(error),
        },
{
    broadcast use vstd::std_specs::hash::group_hash_axioms;

    proof {
        reveal(take_instrument);
    }
    let ghost start = decoder.remaining();
    let raw_id = match decoder.read_u16() {
        Ok(raw) => raw,
        Err(error) => return Err(error),
    };
    let instrument_id = VirtualInstrumentId::new(raw_id);
    if !instrument_ids.insert(raw_id) {
        return Err(VirtualMessageCodecError::DuplicateInstrumentId(instrument_id));
    }
    let name = match decoder.read_string() {
        Ok(name) => name,
        Err(error) => return Err(error),
    };
    let parameter_count = match decoder.read_u16() {
        Ok(count) => count as usize,
        Err(error) => return Err(error),
    };
    let ghost mark = decoder.remaining();
    assert(take_instrument_header(start, earlier) == Ok::<((u16, Seq<char>, u16), Seq<u8>), VirtualMessageCodecError>(((raw_id, name@, parameter_count as u16), mark)));
    let mut parameters: Vec<VirtualParameterDescriptor> = Vec::new();
    assert(parameter_views(parameters@) =~= Seq::<ParameterDescriptorView>::empty());
    let mut index: usize = 0;
    while index < parameter_count
        invariant
            index <= parameter_count <= 0xFFFF,
            decoder.valid(),
            start == old(decoder).remaining(),
            instrument_ids@ == old(instrument_ids)@.insert(raw_id),
            take_instrument_header(start, earlier) == Ok::<((u16, Seq<char>, u16), Seq<u8>), VirtualMessageCodecError>(((raw_id, name@, parameter_count as u16), mark)),
            parameters@.len() == index,
            take_parameters(mark, index as nat) == Ok::<(Seq<ParameterDescriptorView>, Seq<u8>), VirtualMessageCodecError>((parameter_views(parameters@), decoder.remaining())),
        decreases parameter_count - index,
    {
        let ghost before = parameters@;
        match decode_parameter_descriptor(decoder) {
            Ok(parameter) => {
                parameters.push(parameter);
            },
            Err(error) => {
                proof {
                    reveal(take_instrument);
                    lemma_take_parameters_error(mark, index as nat, parameter_count as nat);
                }
                return Err(error);
            },
        }
        assert(parameter_views(parameters@) =~= parameter_views(before).push(parameters@[index as int]@));
        index += 1;
    }
    match VirtualInstrumentDescriptor::new(instrument_id, name, parameters) {
        Ok(descriptor) => Ok(descriptor),
        Err(error) => Err(VirtualMessageCodecError::Schema(error)),
    }
}

fn decode_instrument_catalog(decoder: &mut Decoder) -> (result: Result<Vec<VirtualInstrumentDescriptor>, VirtualMessageCodecError>)
    requires
        old(decoder).valid(),
    ensures
        final(decoder).valid(),
        match take_catalog(old(decoder).remaining()) {
            Ok((instruments, rest)) => result is Ok && instrument_views(result->Ok_0@) == instruments
                && final(decoder).remaining() == rest,
            Err(error) => result == Err::<Vec<VirtualInstrumentDescriptor>, VirtualMessageCodecError>(error),
        },
{
    broadcast use vstd::std_specs::hash::group_hash_axioms;

    let ghost start = decoder.remaining();
    let instrument_count = match decoder.read_u16() {
        Ok(count) => count as usize,
        Err(error) => return Err(error),
    };
    let ghost mark = decoder.remaining();
    let mut instruments: Vec<VirtualInstrumentDescriptor> = Vec::new();
    let mut instrument_ids: HashSet<u16> = HashSet::new();
    assert(instrument_views(instruments@) =~= Seq::<InstrumentDescriptorView>::empty());
    let mut index: usize = 0;
    while index < instrument_count
        invariant
            index <= instrument_count <= 0xFFFF,
            decoder.valid(),
            start == old(decoder).remaining(),
            take_u16(start) == Ok::<(u16, Seq<u8>), VirtualMessageCodecError>((instrument_count as u16, mark)),
            instruments@.len() == index,
            take_instruments(mark, index as nat) == Ok::<(Seq<InstrumentDescriptorView>, Seq<u8>), VirtualMessageCodecError>((instrument_views(instruments@), decoder.remaining())),
            forall|raw: u16| #[trigger] instrument_ids@.contains(raw) <==> has_instrument_id(instrument_views(instruments@), VirtualInstrumentId(raw)),
        decreases instrument_count - index,
    {
        let ghost before = instruments@;
        let ghost ids_before = instrument_ids@;
        match decode_instrument(decoder, &mut instrument_ids, Ghost(instrument_views(instruments@))) {
            Ok(instrument) => {
                instruments.push(instrument);
            },
            Err(error) => {
                proof {
                    lemma_take_instruments_error(mark, index as nat, instrument_count as nat);
                }
                return Err(error);
            },
        }
        let ghost added = instruments@[index as int]@;
        assert(instrument_views(instruments@) =~= instrument_views(before).push(added));
        assert forall|raw: u16| #[trigger] instrument_ids@.contains(raw) <==> has_instrument_id(
            instrument_views(instruments@),
            VirtualInstrumentId(raw),
        ) by {
            let views = instrument_views(instruments@);
            if has_instrument_id(views, VirtualInstrumentId(raw)) {
                let i = choose|i: int| 0 <= i < views.len() && views[i].id == VirtualInstrumentId(raw);
                if i < index {
                    assert(has_instrument_id(instrument_views(before), VirtualInstrumentId(raw))) by {
                        assert(instrument_views(before)[i] == views[i]);
                    }
                }
            }
            if ids_before.contains(raw) {
                let i = choose|i: int| 0 <= i < instrument_views(before).len()
                    && instrument_views(before)[i].id == VirtualInstrumentId(raw);
                assert(views[i] == instrument_views(before)[i]);
            }
            if raw == added.id.0 {
                assert(views[index as int] == added);
            }
        }
        index += 1;
    }
    Ok(instruments)
}

/// A failure among the first `count` descriptors is the failure of any longer read.
proof fn lemma_take_parameters_error(bytes: Seq<u8>, count: nat, total: nat)
    requires
        count < total,
        take_parameters(bytes, count) is Ok,
        take_parameter(take_parameters(bytes, count)->Ok_0.1) is Err,
    ensures
        take_parameters(bytes, total) == Err::<(Seq<ParameterDescriptorView>, Seq<u8>), VirtualMessageCodecError>(take_parameter(take_parameters(bytes, count)->Ok_0.1)->Err_0),
    decreases total,
{
    if total > count + 1 {
        lemma_take_parameters_error(bytes, count, (total - 1) as nat);
    }
}

/// A failure among the first `count` descriptors is the failure of any longer read.
proof fn lemma_take_instruments_error(bytes: Seq<u8>, count: nat, total: nat)
    requires
        count < total,
        take_instruments(bytes, count) is Ok,
        take_instrument(take_instruments(bytes, count)->Ok_0.1, take_instruments(bytes, count)->Ok_0.0) is Err,
    ensures
        take_instruments(bytes, total) == Err::<(Seq<InstrumentDescriptorView>, Seq<u8>), VirtualMessageCodecError>(take_instrument(take_instruments(bytes, count)->Ok_0.1, take_instruments(bytes, count)->Ok_0.0)->Err_0),
    decreases total,
{
    if total > count + 1 {
        lemma_take_instruments_error(bytes, count, (total - 1) as nat);
    }
}

} // verus!
