//! The instrument side of the protocol: answers requests from a model of instruments, checking
//! each request against the model's declared parameters before and after the model acts.
use vstd::prelude::*;

use std::time::Duration;

use crate::binary64::{finite, is_finite, is_nan, less_than, rank, value_lt};
use crate::instrument::{
    instrument_value_type, type_of_value, value_type_name, InstrumentDescriptorView,
    InstrumentValue, ParameterDescriptorView, ParameterRange, ParameterValueType,
    VirtualInstrumentDescriptor, VirtualInstrumentId, VirtualParameterDescriptor,
    VirtualParameterId,
};
use crate::protocol::virtual_instrument::message::{
    catalog_is_well_formed, has_instrument_id, instrument_views, message_kind, MessageView,
};
use crate::protocol::virtual_instrument::{kind_name, VirtualInstrumentMessage};
use crate::text::{decimal, push_decimal, push_str};

verus! {

pub const ERROR_INVALID_REQUEST: u16 = 1;
pub const ERROR_UNKNOWN_INSTRUMENT: u16 = 2;
pub const ERROR_UNKNOWN_PARAMETER: u16 = 3;
pub const ERROR_ACCESS_DENIED: u16 = 4;
pub const ERROR_TYPE_MISMATCH: u16 = 5;
pub const ERROR_INVALID_VALUE: u16 = 6;
pub const ERROR_OUT_OF_RANGE: u16 = 7;
pub const ERROR_MODEL_FAILURE: u16 = 100;

/// A failure that a model reports, with its description.
#[derive(Clone, Debug, PartialEq, Eq)]
pub struct VirtualInstrumentModelError {
    message: String,
}

impl View for VirtualInstrumentModelError {
    type V = Seq<char>;

    closed spec fn view(&self) -> Seq<char> {
        self.message@
    }
}

impl VirtualInstrumentModelError {
    /// A model error with the given description.
    pub fn new(message: &str) -> (error: Self)
        ensures
            error@ == message@,
    {
        VirtualInstrumentModelError { message: message.to_owned() }
    }

    /// The description of the error.
    pub fn to_string(&self) -> (text: String)
        ensures
            text@ == self@,
    {
        self.message.clone()
    }
}

/// The instruments a server answers for. `read` and `write` act on the model and give the value
/// it holds afterwards; the server checks every request and every answer against `instruments`.
///
/// An implementation states its declared instruments as `catalog` and its answers as
/// `read_answer` and `write_answer`, functions of its state before the call. Only an
/// implementation that defines them meets the contracts below: the defaults name no particular
/// value and exist only so that an implementation outside Verus compiles. Verus does not take the
/// defaults for a model of an unknown type, so `handle` is proved for every definition an
/// implementation gives.
pub trait VirtualInstrumentModel {
    /// The instruments the model declares.
    closed spec fn catalog(&self) -> Seq<InstrumentDescriptorView> {
        vstd::pervasive::arbitrary()
    }

    /// The model's answer to a read, given its state before the read.
    closed spec fn read_answer(
        &self,
        instrument: VirtualInstrumentId,
        parameter: VirtualParameterId,
        elapsed: Duration,
    ) -> Result<InstrumentValue, Seq<char>> {
        vstd::pervasive::arbitrary()
    }

    /// The model's answer to a write, given its state before the write.
    closed spec fn write_answer(
        &self,
        instrument: VirtualInstrumentId,
        parameter: VirtualParameterId,
        value: InstrumentValue,
        elapsed: Duration,
    ) -> Result<InstrumentValue, Seq<char>> {
        vstd::pervasive::arbitrary()
    }

    fn instruments(&self) -> (instruments: &[VirtualInstrumentDescriptor])
        ensures
            instrument_views(instruments@) == self.catalog(),
    ;

    fn read(
        &mut self,
        instrument: VirtualInstrumentId,
        parameter: VirtualParameterId,
        elapsed: Duration,
    ) -> (answer: Result<InstrumentValue, VirtualInstrumentModelError>)
        ensures
            answer_view(answer) == old(self).read_answer(instrument, parameter, elapsed),
    ;

    fn write(
        &mut self,
        instrument: VirtualInstrumentId,
        parameter: VirtualParameterId,
        value: InstrumentValue,
        elapsed: Duration,
    ) -> (answer: Result<InstrumentValue, VirtualInstrumentModelError>)
        ensures
            answer_view(answer) == old(self).write_answer(instrument, parameter, value, elapsed),
    ;
}

/// Why a value does not fit a parameter.
#[derive(Clone, Copy, Debug, PartialEq, Eq)]
pub enum ValueValidationError {
    TypeMismatch { expected: ParameterValueType, actual: ParameterValueType },
    NonFiniteNumber,
    OutOfRange,
}

/// The problem with a value for a parameter, if any: a type other than the declared one, a
/// number that is not finite, or a value outside the declared range.
pub open spec fn value_problem(descriptor: ParameterDescriptorView, value: InstrumentValue) -> Option<ValueValidationError> {
    if type_of_value(value) != descriptor.value_type {
        Some(
            ValueValidationError::TypeMismatch {
                expected: descriptor.value_type,
                actual: type_of_value(value),
            },
        )
    } else {
        match value {
            InstrumentValue::Number(bits) => if !is_finite(bits) {
                Some(ValueValidationError::NonFiniteNumber)
            } else {
                match descriptor.range {
                    Some(ParameterRange::Number { minimum, maximum }) => if value_lt(bits, minimum)
                        || value_lt(maximum, bits) {
                        Some(ValueValidationError::OutOfRange)
                    } else {
                        None
                    },
                    _ => None,
                }
            },
            InstrumentValue::Integer(integer) => match descriptor.range {
                Some(ParameterRange::Integer { minimum, maximum }) => if integer < minimum || integer
                    > maximum {
                    Some(ValueValidationError::OutOfRange)
                } else {
                    None
                },
                _ => None,
            },
            InstrumentValue::Boolean(_) => None,
        }
    }
}

/// The error code of a value problem.
pub open spec fn problem_code(problem: ValueValidationError) -> u16 {
    match problem {
        ValueValidationError::TypeMismatch { .. } => ERROR_TYPE_MISMATCH,
        ValueValidationError::NonFiniteNumber => ERROR_INVALID_VALUE,
        ValueValidationError::OutOfRange => ERROR_OUT_OF_RANGE,
    }
}

/// The description of a value problem.
pub open spec fn problem_text(problem: ValueValidationError) -> Seq<char> {
    match problem {
        ValueValidationError::TypeMismatch { expected, actual } => "expected "@ + value_type_name(
            expected,
        ) + ", received "@ + value_type_name(actual),
        ValueValidationError::NonFiniteNumber => "number must be finite"@,
        ValueValidationError::OutOfRange => "value is outside the declared range"@,
    }
}

/// Whether `index` is the first instrument with the identifier.
pub open spec fn is_first_instrument_with(instruments: Seq<InstrumentDescriptorView>, id: VirtualInstrumentId, index: int) -> bool {
    &&& 0 <= index < instruments.len()
    &&& instruments[index].id == id
    &&& forall|earlier: int| 0 <= earlier < index ==> instruments[earlier].id != id
}

/// The first instrument with the identifier (meaningful when there is one).
pub open spec fn instrument_with(instruments: Seq<InstrumentDescriptorView>, id: VirtualInstrumentId) -> InstrumentDescriptorView {
    instruments[choose|index: int| is_first_instrument_with(instruments, id, index)]
}

/// Whether a parameter with the identifier is among the given ones.
pub open spec fn has_parameter_id(parameters: Seq<ParameterDescriptorView>, id: VirtualParameterId) -> bool {
    exists|index: int| 0 <= index < parameters.len() && parameters[index].id == id
}

/// The parameter with the identifier (meaningful when there is one).
pub open spec fn parameter_with(parameters: Seq<ParameterDescriptorView>, id: VirtualParameterId) -> ParameterDescriptorView {
    parameters[choose|index: int| 0 <= index < parameters.len() && parameters[index].id == id]
}

/// The reply describing a catalog.
pub open spec fn describe_reply(catalog: Seq<InstrumentDescriptorView>) -> MessageView {
    MessageView::DescribeResponse { instruments: catalog }
}

/// An error reply.
pub open spec fn error_reply(code: u16, message: Seq<char>) -> MessageView {
    MessageView::ErrorResponse { code, message }
}

/// The declared parameter that a request addresses, or the reply refusing the request: the first
/// instrument with the identifier must have a parameter with the identifier.
pub open spec fn addressed_parameter(instruments: Seq<InstrumentDescriptorView>, instrument: VirtualInstrumentId, parameter: VirtualParameterId) -> Result<ParameterDescriptorView, MessageView> {
    if !has_instrument_id(instruments, instrument) {
        Err(
            error_reply(
                ERROR_UNKNOWN_INSTRUMENT,
                "Unknown virtual instrument ID "@ + decimal(instrument.0 as nat),
            ),
        )
    } else if !has_parameter_id(instrument_with(instruments, instrument).parameters, parameter) {
        Err(
            error_reply(
                ERROR_UNKNOWN_PARAMETER,
                "Unknown parameter ID "@ + decimal(parameter.0 as nat) + " for virtual instrument "@
                    + decimal(instrument.0 as nat),
            ),
        )
    } else {
        Ok(parameter_with(instrument_with(instruments, instrument).parameters, parameter))
    }
}

/// The parameter a read request may read, or the reply refusing it.
pub open spec fn read_check(instruments: Seq<InstrumentDescriptorView>, instrument: VirtualInstrumentId, parameter: VirtualParameterId) -> Result<ParameterDescriptorView, MessageView> {
    match addressed_parameter(instruments, instrument, parameter) {
        Err(reply) => Err(reply),
        Ok(descriptor) => if !descriptor.access.is_readable() {
            Err(
                error_reply(
                    ERROR_ACCESS_DENIED,
                    "Virtual parameter '"@ + descriptor.key + "' is not readable"@,
                ),
            )
        } else {
            Ok(descriptor)
        },
    }
}

/// The parameter a write request may write with the value, or the reply refusing it.
pub open spec fn write_check(instruments: Seq<InstrumentDescriptorView>, instrument: VirtualInstrumentId, parameter: VirtualParameterId, value: InstrumentValue) -> Result<ParameterDescriptorView, MessageView> {
    match addressed_parameter(instruments, instrument, parameter) {
        Err(reply) => Err(reply),
        Ok(descriptor) => if !descriptor.access.is_writable() {
            Err(
                error_reply(
                    ERROR_ACCESS_DENIED,
                    "Virtual parameter '"@ + descriptor.key + "' is not writable"@,
                ),
            )
        } else {
            match value_problem(descriptor, value) {
                Some(problem) => Err(
                    error_reply(
                        problem_code(problem),
                        "Invalid value for virtual parameter '"@ + descriptor.key + "': "@
                            + problem_text(problem),
                    ),
                ),
                None => Ok(descriptor),
            }
        },
    }
}

/// What a model's answer becomes: its failure or an invalid value is a model failure; a valid
/// value is returned in the reply `respond` builds.
pub open spec fn model_reply(
    descriptor: ParameterDescriptorView,
    answer: Result<InstrumentValue, Seq<char>>,
    is_write: bool,
) -> MessageView {
    match answer {
        Err(message) => error_reply(ERROR_MODEL_FAILURE, message),
        Ok(value) => match value_problem(descriptor, value) {
            Some(problem) => error_reply(
                ERROR_MODEL_FAILURE,
                "Virtual model returned invalid value for parameter '"@ + descriptor.key + "': "@
                    + problem_text(problem),
            ),
            None => if is_write {
                MessageView::WriteResponse { value }
            } else {
                MessageView::ReadResponse { value }
            },
        },
    }
}

/// The abstract content of a model's answer.
pub open spec fn answer_view(answer: Result<InstrumentValue, VirtualInstrumentModelError>) -> Result<InstrumentValue, Seq<char>> {
    match answer {
        Ok(value) => Ok(value),
        Err(error) => Err(error@),
    }
}

/// The reply to a request that is not one: the invalid-request error naming its kind.
pub open spec fn invalid_request_reply(request: MessageView) -> MessageView {
    error_reply(
        ERROR_INVALID_REQUEST,
        "Expected virtual instrument request, received "@ + kind_name(message_kind(request)),
    )
}

/// Checks a value against a parameter's declared type and range.
pub fn validate_value(descriptor: &VirtualParameterDescriptor, value: InstrumentValue) -> (result: Result<(), ValueValidationError>)
    ensures
        match value_problem(descriptor@, value) {
            Some(problem) => result == Err::<(), ValueValidationError>(problem),
            None => result is Ok,
        },
{
    let actual_type = instrument_value_type(value);
    if actual_type != descriptor.value_type() {
        return Err(
            ValueValidationError::TypeMismatch { expected: descriptor.value_type(), actual: actual_type },
        );
    }
    match value {
        InstrumentValue::Number(bits) => {
            if !finite(bits) {
                return Err(ValueValidationError::NonFiniteNumber);
            }
            match descriptor.range() {
                Some(ParameterRange::Number { minimum, maximum }) => {
                    if less_than(bits, minimum) || less_than(maximum, bits) {
                        return Err(ValueValidationError::OutOfRange);
                    }
                },
                _ => {},
            }
        },
        InstrumentValue::Integer(integer) => {
            match descriptor.range() {
                Some(ParameterRange::Integer { minimum, maximum }) => {
                    if integer < minimum || integer > maximum {
                        return Err(ValueValidationError::OutOfRange);
                    }
                },
                _ => {},
            }
        },
        InstrumentValue::Boolean(_) => {},
    }
    Ok(())
}

/// An integer for a parameter declared as an integer within `[minimum, maximum]` is accepted
/// exactly when it lies in that range, bounds included; below the minimum or above the maximum it
/// is out of range.
pub proof fn lemma_integer_value_within_declared_range(
    descriptor: ParameterDescriptorView,
    minimum: i64,
    maximum: i64,
    integer: i64,
)
    requires
        descriptor.value_type == ParameterValueType::Integer,
        descriptor.range == Some(ParameterRange::Integer { minimum, maximum }),
    ensures
        value_problem(descriptor, InstrumentValue::Integer(integer)) is None <==> minimum <= integer
            <= maximum,
        integer < minimum || maximum < integer ==> value_problem(
            descriptor,
            InstrumentValue::Integer(integer),
        ) == Some(ValueValidationError::OutOfRange),
{
}

/// A number for a parameter declared as a number within `[minimum, maximum]` (bounds that are not
/// NaN) must be finite, and a finite one is accepted exactly when its value lies in that range,
/// bounds included; outside it, it is out of range.
pub proof fn lemma_number_value_within_declared_range(
    descriptor: ParameterDescriptorView,
    minimum: u64,
    maximum: u64,
    bits: u64,
)
    requires
        descriptor.value_type == ParameterValueType::Number,
        descriptor.range == Some(ParameterRange::Number { minimum, maximum }),
        !is_nan(minimum),
        !is_nan(maximum),
    ensures
        !is_finite(bits) ==> value_problem(descriptor, InstrumentValue::Number(bits)) == Some(
            ValueValidationError::NonFiniteNumber,
        ),
        is_finite(bits) ==> (value_problem(descriptor, InstrumentValue::Number(bits)) is None
            <==> rank(minimum) <= rank(bits) <= rank(maximum)),
        is_finite(bits) && (rank(bits) < rank(minimum) || rank(maximum) < rank(bits))
            ==> value_problem(descriptor, InstrumentValue::Number(bits)) == Some(
            ValueValidationError::OutOfRange,
        ),
{
}

/// A write to a writable integer parameter declared within `[minimum, maximum]` reaches the model
/// exactly when the integer lies in that range; otherwise it is answered with an error reply whose
/// code is `ERROR_OUT_OF_RANGE`.
pub proof fn lemma_write_outside_declared_range_refused(
    instruments: Seq<InstrumentDescriptorView>,
    instrument: VirtualInstrumentId,
    parameter: VirtualParameterId,
    descriptor: ParameterDescriptorView,
    minimum: i64,
    maximum: i64,
    integer: i64,
)
    requires
        addressed_parameter(instruments, instrument, parameter) == Ok::<ParameterDescriptorView, MessageView>(descriptor),
        descriptor.access.is_writable(),
        descriptor.value_type == ParameterValueType::Integer,
        descriptor.range == Some(ParameterRange::Integer { minimum, maximum }),
    ensures
        minimum <= integer <= maximum ==> write_check(
            instruments,
            instrument,
            parameter,
            InstrumentValue::Integer(integer),
        ) == Ok::<ParameterDescriptorView, MessageView>(descriptor),
        integer < minimum || maximum < integer ==> (write_check(
            instruments,
            instrument,
            parameter,
            InstrumentValue::Integer(integer),
        ) matches Err(MessageView::ErrorResponse { code, .. }) && code == ERROR_OUT_OF_RANGE),
{
    lemma_integer_value_within_declared_range(descriptor, minimum, maximum, integer);
}

/// Of a parameter that a request addresses: a read is refused with `ERROR_ACCESS_DENIED` unless
/// the parameter is readable, and otherwise reaches the model; a write is refused with
/// `ERROR_ACCESS_DENIED` unless it is writable, then with `ERROR_TYPE_MISMATCH` when the value's
/// type is not the declared one, and with `ERROR_INVALID_VALUE` when a number is not finite.
pub proof fn lemma_access_and_type_checked(
    instruments: Seq<InstrumentDescriptorView>,
    instrument: VirtualInstrumentId,
    parameter: VirtualParameterId,
    descriptor: ParameterDescriptorView,
    value: InstrumentValue,
)
    requires
        addressed_parameter(instruments, instrument, parameter) == Ok::<ParameterDescriptorView, MessageView>(descriptor),
    ensures
        descriptor.access.is_readable() ==> read_check(instruments, instrument, parameter) == Ok::<
            ParameterDescriptorView,
            MessageView,
        >(descriptor),
        !descriptor.access.is_readable() ==> (read_check(instruments, instrument, parameter) matches Err(
            MessageView::ErrorResponse { code, .. },
        ) && code == ERROR_ACCESS_DENIED),
        !descriptor.access.is_writable() ==> (write_check(instruments, instrument, parameter, value) matches Err(
            MessageView::ErrorResponse { code, .. },
        ) && code == ERROR_ACCESS_DENIED),
        descriptor.access.is_writable() && type_of_value(value) != descriptor.value_type ==> (write_check(
            instruments,
            instrument,
            parameter,
            value,
        ) matches Err(MessageView::ErrorResponse { code, .. }) && code == ERROR_TYPE_MISMATCH),
        descriptor.access.is_writable() && descriptor.value_type == ParameterValueType::Number && (
        value matches InstrumentValue::Number(bits) && !is_finite(bits)) ==> (write_check(
            instruments,
            instrument,
            parameter,
            value,
        ) matches Err(MessageView::ErrorResponse { code, .. }) && code == ERROR_INVALID_VALUE),
        descriptor.access.is_writable() && type_of_value(value) == descriptor.value_type
            && descriptor.range is None && !(value matches InstrumentValue::Number(bits) && !is_finite(
        bits)) ==> write_check(instruments, instrument, parameter, value) == Ok::<
            ParameterDescriptorView,
            MessageView,
        >(descriptor),
{
}

impl ValueValidationError {
    /// The error code that a refused write reports.
    pub fn code(&self) -> (code: u16)
        ensures
            code == problem_code(*self),
    {
        match self {
            ValueValidationError::TypeMismatch { .. } => ERROR_TYPE_MISMATCH,
            ValueValidationError::NonFiniteNumber => ERROR_INVALID_VALUE,
            ValueValidationError::OutOfRange => ERROR_OUT_OF_RANGE,
        }
    }

    /// Appends the description of the problem.
    fn push_text(&self, text: &mut String)
        ensures
            final(text)@ == old(text)@ + problem_text(*self),
    {
        match self {
            ValueValidationError::TypeMismatch { expected, actual } => {
                push_str(text, "expected ");
                push_str(text, expected.as_str());
                push_str(text, ", received ");
                push_str(text, actual.as_str());
                assert(text@ =~= old(text)@ + problem_text(*self));
            },
            ValueValidationError::NonFiniteNumber => {
                push_str(text, "number must be finite");
            },
            ValueValidationError::OutOfRange => {
                push_str(text, "value is outside the declared range");
            },
        }
    }
}

/// An error reply carrying a code and a message.
fn error_response(code: u16, message: String) -> (reply: VirtualInstrumentMessage)
    ensures
        reply@ == error_reply(code, message@),
{
    VirtualInstrumentMessage::ErrorResponse { code, message }
}

/// The parameter that a request addresses among the given instruments (see `addressed_parameter`).
pub fn find_parameter(instruments: &[VirtualInstrumentDescriptor], instrument_id: VirtualInstrumentId, parameter_id: VirtualParameterId) -> (result: Result<VirtualParameterDescriptor, VirtualInstrumentMessage>)
    ensures
        match addressed_parameter(instrument_views(instruments@), instrument_id, parameter_id) {
            Ok(descriptor) => result matches Ok(found) && found@ == descriptor,
            Err(reply) => result matches Err(refusal) && refusal@ == reply,
        },
{
    let ghost views = instrument_views(instruments@);
    let mut index: usize = 0;
    while index < instruments.len()
        invariant
            index <= instruments@.len(),
            views == instrument_views(instruments@),
            forall|earlier: int| 0 <= earlier < index ==> views[earlier].id != instrument_id,
        decreases instruments.len() - index,
    {
        if instruments[index].id() == instrument_id {
            assert(views[index as int] == instruments@[index as int]@);
            proof {
                assert(is_first_instrument_with(views, instrument_id, index as int));
                let chosen = choose|i: int| is_first_instrument_with(views, instrument_id, i);
                if chosen < index {
                    assert(views[chosen].id != instrument_id);
                } else if index < chosen {
                    assert(views[index as int].id != instrument_id);
                }
                assert(instrument_with(views, instrument_id) == views[index as int]);
            }
            let found = &instruments[index];
            let parameters = found.parameters();
            return match found.parameter_by_id(parameter_id) {
                Some(descriptor) => {
                    let copy = descriptor.clone();
                    proof {
                        let params = views[index as int].parameters;
                        let j = choose|j: int| 0 <= j < params.len() && params[j].id == parameter_id;
                        let k = choose|k: int| 0 <= k < params.len() && params[k] == descriptor@
                            && descriptor@.id == parameter_id;
                        assert(params[j].id == params[k].id);
                        if j < k {
                            assert(params[j].id != params[k].id);
                        } else if k < j {
                            assert(params[k].id != params[j].id);
                        }
                    }
                    Ok(copy)
                },
                None => {
                    let mut message = String::new();
                    push_str(&mut message, "Unknown parameter ID ");
                    push_decimal(&mut message, parameter_id.0 as u64);
                    push_str(&mut message, " for virtual instrument ");
                    push_decimal(&mut message, instrument_id.0 as u64);
                    assert(message@ =~= "Unknown parameter ID "@ + decimal(parameter_id.0 as nat)
                        + " for virtual instrument "@ + decimal(instrument_id.0 as nat));
                    Err(error_response(ERROR_UNKNOWN_PARAMETER, message))
                },
            };
        }
        index += 1;
    }
    let mut message = String::new();
    push_str(&mut message, "Unknown virtual instrument ID ");
    push_decimal(&mut message, instrument_id.0 as u64);
    assert(message@ =~= "Unknown virtual instrument ID "@ + decimal(instrument_id.0 as nat));
    Err(error_response(ERROR_UNKNOWN_INSTRUMENT, message))
}

/// The parameter a read request may read (see `read_check`).
pub fn check_read(instruments: &[VirtualInstrumentDescriptor], instrument: VirtualInstrumentId, parameter: VirtualParameterId) -> (result: Result<VirtualParameterDescriptor, VirtualInstrumentMessage>)
    ensures
        match read_check(instrument_views(instruments@), instrument, parameter) {
            Ok(descriptor) => result matches Ok(found) && found@ == descriptor,
            Err(reply) => result matches Err(refusal) && refusal@ == reply,
        },
{
    let descriptor = match find_parameter(instruments, instrument, parameter) {
        Ok(descriptor) => descriptor,
        Err(reply) => return Err(reply),
    };
    if !descriptor.access().readable() {
        let mut message = String::new();
        push_str(&mut message, "Virtual parameter '");
        push_str(&mut message, descriptor.key());
        push_str(&mut message, "' is not readable");
        assert(message@ =~= "Virtual parameter '"@ + descriptor@.key + "' is not readable"@);
        return Err(error_response(ERROR_ACCESS_DENIED, message));
    }
    Ok(descriptor)
}

/// The parameter a write request may write with the value (see `write_check`).
pub fn check_write(instruments: &[VirtualInstrumentDescriptor], instrument: VirtualInstrumentId, parameter: VirtualParameterId, value: InstrumentValue) -> (result: Result<VirtualParameterDescriptor, VirtualInstrumentMessage>)
    ensures
        match write_check(instrument_views(instruments@), instrument, parameter, value) {
            Ok(descriptor) => result matches Ok(found) && found@ == descriptor,
            Err(reply) => result matches Err(refusal) && refusal@ == reply,
        },
{
    let descriptor = match find_parameter(instruments, instrument, parameter) {
        Ok(descriptor) => descriptor,
        Err(reply) => return Err(reply),
    };
    if !descriptor.access().writable() {
        let mut message = String::new();
        push_str(&mut message, "Virtual parameter '");
        push_str(&mut message, descriptor.key());
        push_str(&mut message, "' is not writable");
        assert(message@ =~= "Virtual parameter '"@ + descriptor@.key + "' is not writable"@);
        return Err(error_response(ERROR_ACCESS_DENIED, message));
    }
    match validate_value(&descriptor, value) {
        Ok(()) => Ok(descriptor),
        Err(problem) => {
            let mut message = String::new();
            push_str(&mut message, "Invalid value for virtual parameter '");
            push_str(&mut message, descriptor.key());
            push_str(&mut message, "': ");
            problem.push_text(&mut message);
            assert(message@ =~= "Invalid value for virtual parameter '"@ + descriptor@.key + "': "@
                + problem_text(problem));
            Err(error_response(problem.code(), message))
        },
    }
}

/// The reply to a model's answer for a checked parameter (see `model_reply`).
pub fn reply_to_answer(descriptor: &VirtualParameterDescriptor, answer: Result<InstrumentValue, VirtualInstrumentModelError>, is_write: bool) -> (reply: VirtualInstrumentMessage)
    ensures
        reply@ == model_reply(descriptor@, answer_view(answer), is_write),
{
    let value = match answer {
        Ok(value) => value,
        Err(error) => return error_response(ERROR_MODEL_FAILURE, error.to_string()),
    };
    match validate_value(descriptor, value) {
        Ok(()) => if is_write {
            VirtualInstrumentMessage::WriteResponse { value }
        } else {
            VirtualInstrumentMessage::ReadResponse { value }
        },
        Err(problem) => {
            let mut message = String::new();
            push_str(&mut message, "Virtual model returned invalid value for parameter '");
            push_str(&mut message, descriptor.key());
            push_str(&mut message, "': ");
            problem.push_text(&mut message);
            assert(message@ =~= "Virtual model returned invalid value for parameter '"@
                + descriptor@.key + "': "@ + problem_text(problem));
            error_response(ERROR_MODEL_FAILURE, message)
        },
    }
}

/// Copies of the given descriptors.
fn copy_instruments(instruments: &[VirtualInstrumentDescriptor]) -> (copies: Vec<VirtualInstrumentDescriptor>)
    ensures
        instrument_views(copies@) == instrument_views(instruments@),
{
    let mut copies: Vec<VirtualInstrumentDescriptor> = Vec::new();
    let mut index: usize = 0;
    while index < instruments.len()
        invariant
            index <= instruments@.len(),
            copies@.len() == index,
            forall|k: int| 0 <= k < index ==> #[trigger] copies@[k]@ == instruments@[k]@,
        decreases instruments.len() - index,
    {
        copies.push(instruments[index].clone());
        index += 1;
    }
    assert(instrument_views(copies@) =~= instrument_views(instruments@));
    copies
}

/// A server that answers requests from a model.
pub struct VirtualInstrumentServer<M> {
    model: M,
}

impl<M> VirtualInstrumentServer<M> {
    /// The model the server answers from.
    pub closed spec fn model_spec(&self) -> M {
        self.model
    }
}

impl<M: VirtualInstrumentModel> VirtualInstrumentServer<M> {
    /// A server that answers from the model.
    pub fn new(model: M) -> (server: Self)
        ensures
            server.model_spec() == model,
    {
        VirtualInstrumentServer { model }
    }

    /// Answers one request. The catalog is the model's; every refusal is decided from it and
    /// leaves the model untouched; a checked read or write is answered with the model's own
    /// answer, itself checked against the parameter.
    pub fn handle(&mut self, request: VirtualInstrumentMessage, elapsed: Duration) -> (response: VirtualInstrumentMessage)
        ensures
            request@ is DescribeRequest ==> response@ == describe_reply(old(self).model_spec().catalog())
                && final(self).model_spec() == old(self).model_spec(),
            request@ matches MessageView::ReadRequest { instrument, parameter } ==> match read_check(
                old(self).model_spec().catalog(),
                instrument,
                parameter,
            ) {
                Err(reply) => response@ == reply && final(self).model_spec() == old(self).model_spec(),
                Ok(descriptor) => response@ == model_reply(
                    descriptor,
                    old(self).model_spec().read_answer(instrument, parameter, elapsed),
                    false,
                ),
            },
            request@ matches MessageView::WriteRequest { instrument, parameter, value } ==> match write_check(
                old(self).model_spec().catalog(),
                instrument,
                parameter,
                value,
            ) {
                Err(reply) => response@ == reply && final(self).model_spec() == old(self).model_spec(),
                Ok(descriptor) => response@ == model_reply(
                    descriptor,
                    old(self).model_spec().write_answer(instrument, parameter, value, elapsed),
                    true,
                ),
            },
            !(request@ is DescribeRequest || request@ is ReadRequest || request@ is WriteRequest)
                ==> response@ == invalid_request_reply(request@) && final(self).model_spec()
                == old(self).model_spec(),
    {
        let kind = request.kind();
        match request {
            VirtualInstrumentMessage::DescribeRequest => {
                let instruments = self.model.instruments();
                let response = VirtualInstrumentMessage::DescribeResponse {
                    instruments: copy_instruments(instruments),
                };
                assert(response@ == describe_reply(instrument_views(instruments@)));
                response
            },
            VirtualInstrumentMessage::ReadRequest { instrument, parameter } => {
                let instruments = self.model.instruments();
                let ghost catalog = instrument_views(instruments@);
                match check_read(instruments, instrument, parameter) {
                    Err(reply) => {
                        assert(read_check(catalog, instrument, parameter) == Err::<ParameterDescriptorView, MessageView>(reply@));
                        reply
                    },
                    Ok(descriptor) => {
                        let answer = self.model.read(instrument, parameter, elapsed);
                        let reply = reply_to_answer(&descriptor, answer, false);
                        assert(read_check(catalog, instrument, parameter) is Ok);
                        assert(reply@ == model_reply(descriptor@, answer_view(answer), false));
                        reply
                    },
                }
            },
            VirtualInstrumentMessage::WriteRequest { instrument, parameter, value } => {
                let instruments = self.model.instruments();
                let ghost catalog = instrument_views(instruments@);
                match check_write(instruments, instrument, parameter, value) {
                    Err(reply) => {
                        assert(write_check(catalog, instrument, parameter, value) == Err::<ParameterDescriptorView, MessageView>(reply@));
                        reply
                    },
                    Ok(descriptor) => {
                        let answer = self.model.write(instrument, parameter, value, elapsed);
                        let reply = reply_to_answer(&descriptor, answer, true);
                        assert(write_check(catalog, instrument, parameter, value) is Ok);
                        assert(reply@ == model_reply(descriptor@, answer_view(answer), true));
                        reply
                    },
                }
            },
            other => {
                let mut message = String::new();
                push_str(&mut message, "Expected virtual instrument request, received ");
                push_str(&mut message, kind.name());
                assert(message@ =~= "Expected virtual instrument request, received "@ + kind_name(
                    message_kind(request@),
                ));
                error_response(ERROR_INVALID_REQUEST, message)
            },
        }
    }
}

} // verus!
