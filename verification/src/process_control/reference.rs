//! The parameters of reference sources (the setpoint a control loop follows), and the errors of
//! configuring them.
use vstd::prelude::*;

use crate::instrument::{
    instrument_value_type, type_of_value, value_type_name, InstrumentValue, ParameterAccess, ParameterDescriptor, ParameterRange, ParameterValueType,
};
use crate::process_control::pid::{MAX_BITS, MIN_BITS, ZERO_BITS};
use crate::text::{push_str, str_eq};

verus! {

#[derive(Clone, Copy, Debug, PartialEq, Eq, Structural)]
pub enum ReferenceParameter {
    Setpoint,
}

/// The key of a loop's reference parameter.
pub open spec fn reference_parameter_key(parameter: ReferenceParameter) -> Seq<char> {
    match parameter {
        ReferenceParameter::Setpoint => "setpoint"@,
    }
}

/// The reference parameter a key names, if any.
pub open spec fn reference_parameter_with_key(key: Seq<char>) -> Option<ReferenceParameter> {
    if key == "setpoint"@ {
        Some(ReferenceParameter::Setpoint)
    } else {
        None
    }
}

/// A number over the whole finite range.
pub open spec fn unbounded_number() -> ParameterRange {
    ParameterRange::Number { minimum: MIN_BITS, maximum: MAX_BITS }
}

impl ReferenceParameter {
    pub fn key(self) -> (key: &'static str)
        ensures
            key@ == reference_parameter_key(self),
    {
        match self {
            ReferenceParameter::Setpoint => "setpoint",
        }
    }

    pub fn from_key(key: &str) -> (parameter: Option<Self>)
        ensures
            parameter == reference_parameter_with_key(key@),
    {
        if str_eq(ReferenceParameter::Setpoint.key(), key) {
            Some(ReferenceParameter::Setpoint)
        } else {
            None
        }
    }

    /// The parameter's metadata: a readable and writable number over the whole finite range.
    pub fn descriptor(self) -> (descriptor: ParameterDescriptor)
        ensures
            descriptor.key@ == reference_parameter_key(self),
            descriptor.name@ == reference_parameter_key(self),
            descriptor.access == ParameterAccess::ReadWrite,
            descriptor.value_type == ParameterValueType::Number,
            descriptor.range == unbounded_number(),
    {
        match self {
            ReferenceParameter::Setpoint => ParameterDescriptor {
                key: "setpoint",
                name: "setpoint",
                access: ParameterAccess::ReadWrite,
                value_type: ParameterValueType::Number,
                range: ParameterRange::Number { minimum: MIN_BITS, maximum: MAX_BITS },
            },
        }
    }
}

/// Every reference parameter's key names that parameter again.
pub proof fn lemma_reference_parameter_key_round_trip(parameter: ReferenceParameter)
    ensures
        reference_parameter_with_key(reference_parameter_key(parameter)) == Some(parameter),
{
}

#[derive(Clone, Copy, Debug, PartialEq, Eq, Structural)]
pub enum ReferenceSourceParameter {
    Value,
    Start,
    Target,
    Rate,
}

/// The key of a reference source's parameter.
pub open spec fn source_parameter_key(parameter: ReferenceSourceParameter) -> Seq<char> {
    match parameter {
        ReferenceSourceParameter::Value => "value"@,
        ReferenceSourceParameter::Start => "start"@,
        ReferenceSourceParameter::Target => "target"@,
        ReferenceSourceParameter::Rate => "rate"@,
    }
}

/// The source parameter a key names, if any.
pub open spec fn source_parameter_with_key(key: Seq<char>) -> Option<ReferenceSourceParameter> {
    if key == "value"@ {
        Some(ReferenceSourceParameter::Value)
    } else if key == "start"@ {
        Some(ReferenceSourceParameter::Start)
    } else if key == "target"@ {
        Some(ReferenceSourceParameter::Target)
    } else if key == "rate"@ {
        Some(ReferenceSourceParameter::Rate)
    } else {
        None
    }
}

/// The range of a source parameter: a ramp's rate is not negative, the others are unbounded.
pub open spec fn source_parameter_range(parameter: ReferenceSourceParameter) -> ParameterRange {
    match parameter {
        ReferenceSourceParameter::Rate => ParameterRange::Number { minimum: ZERO_BITS, maximum: MAX_BITS },
        _ => unbounded_number(),
    }
}

impl ReferenceSourceParameter {
    pub fn key(self) -> (key: &'static str)
        ensures
            key@ == source_parameter_key(self),
    {
        match self {
            ReferenceSourceParameter::Value => "value",
            ReferenceSourceParameter::Start => "start",
            ReferenceSourceParameter::Target => "target",
            ReferenceSourceParameter::Rate => "rate",
        }
    }

    pub fn from_key(key: &str) -> (parameter: Option<Self>)
        ensures
            parameter == source_parameter_with_key(key@),
    {
        proof {
            reveal_strlit("value");
            reveal_strlit("start");
            reveal_strlit("target");
            reveal_strlit("rate");
        }
        if str_eq(ReferenceSourceParameter::Value.key(), key) {
            Some(ReferenceSourceParameter::Value)
        } else if str_eq(ReferenceSourceParameter::Start.key(), key) {
            Some(ReferenceSourceParameter::Start)
        } else if str_eq(ReferenceSourceParameter::Target.key(), key) {
            Some(ReferenceSourceParameter::Target)
        } else if str_eq(ReferenceSourceParameter::Rate.key(), key) {
            Some(ReferenceSourceParameter::Rate)
        } else {
            None
        }
    }

    /// The parameter's metadata: a readable and writable number in `source_parameter_range`.
    pub fn descriptor(self) -> (descriptor: ParameterDescriptor)
        ensures
            descriptor.key@ == source_parameter_key(self),
            descriptor.name@ == source_parameter_key(self),
            descriptor.access == ParameterAccess::ReadWrite,
            descriptor.value_type == ParameterValueType::Number,
            descriptor.range == source_parameter_range(self),
    {
        let key = self.key();
        let range = match self {
            ReferenceSourceParameter::Rate => ParameterRange::Number { minimum: ZERO_BITS, maximum: MAX_BITS },
            _ => ParameterRange::Number { minimum: MIN_BITS, maximum: MAX_BITS },
        };
        ParameterDescriptor {
            key,
            name: key,
            access: ParameterAccess::ReadWrite,
            value_type: ParameterValueType::Number,
            range,
        }
    }
}

/// Every source parameter's key names that parameter again.
pub proof fn lemma_source_parameter_key_round_trip(parameter: ReferenceSourceParameter)
    ensures
        source_parameter_with_key(source_parameter_key(parameter)) == Some(parameter),
{
    reveal_strlit("value");
    reveal_strlit("start");
    reveal_strlit("target");
    reveal_strlit("rate");
    assert("value"@[0] != "start"@[0]);
    assert("value"@[0] != "target"@[0]);
    assert("value"@[0] != "rate"@[0]);
    assert("start"@[0] != "target"@[0]);
    assert("start"@[0] != "rate"@[0]);
    assert("target"@[0] != "rate"@[0]);
}

#[derive(Clone, Copy, Debug, PartialEq, Eq, Structural)]
pub enum ReferenceKind {
    Fixed,
    Ramp,
}

/// The name of a reference kind.
pub open spec fn reference_kind_name(kind: ReferenceKind) -> Seq<char> {
    match kind {
        ReferenceKind::Fixed => "fixed"@,
        ReferenceKind::Ramp => "ramp"@,
    }
}

impl ReferenceKind {
    pub fn as_str(self) -> (name: &'static str)
        ensures
            name@ == reference_kind_name(self),
    {
        match self {
            ReferenceKind::Fixed => "fixed",
            ReferenceKind::Ramp => "ramp",
        }
    }
}

#[derive(Clone, Copy, Debug, PartialEq, Eq)]
pub enum ReferenceSourceError {
    NonFiniteFixedValue,
    NonFiniteRampStart,
    NonFiniteRampTarget,
    NonFiniteRampRate,
    NonPositiveRampRate,
    NonFiniteRampSpan,
    NonFiniteElapsedTime,
    NegativeElapsedTime,
}

/// The description of a reference source error.
pub open spec fn source_error_text(error: ReferenceSourceError) -> Seq<char> {
    match error {
        ReferenceSourceError::NonFiniteFixedValue => "Fixed reference value must be finite"@,
        ReferenceSourceError::NonFiniteRampStart => "Ramp start value must be finite"@,
        ReferenceSourceError::NonFiniteRampTarget => "Ramp target value must be finite"@,
        ReferenceSourceError::NonFiniteRampRate => "Ramp rate must be finite"@,
        ReferenceSourceError::NonPositiveRampRate => "Ramp rate must be greater than zero"@,
        ReferenceSourceError::NonFiniteRampSpan => "Ramp span must be finite"@,
        ReferenceSourceError::NonFiniteElapsedTime => "Reference elapsed time must be finite"@,
        ReferenceSourceError::NegativeElapsedTime => "Reference elapsed time must not be negative"@,
    }
}

impl ReferenceSourceError {
    pub fn to_string(&self) -> (text: String)
        ensures
            text@ == source_error_text(*self),
    {
        let text = match self {
            ReferenceSourceError::NonFiniteFixedValue => "Fixed reference value must be finite",
            ReferenceSourceError::NonFiniteRampStart => "Ramp start value must be finite",
            ReferenceSourceError::NonFiniteRampTarget => "Ramp target value must be finite",
            ReferenceSourceError::NonFiniteRampRate => "Ramp rate must be finite",
            ReferenceSourceError::NonPositiveRampRate => "Ramp rate must be greater than zero",
            ReferenceSourceError::NonFiniteRampSpan => "Ramp span must be finite",
            ReferenceSourceError::NonFiniteElapsedTime => "Reference elapsed time must be finite",
            ReferenceSourceError::NegativeElapsedTime => "Reference elapsed time must not be negative",
        };
        text.to_owned()
    }
}

#[derive(Clone, Debug, PartialEq, Eq)]
pub enum ReferenceParameterError {
    UnknownParameter(String),
    DuplicateParameter(ReferenceSourceParameter),
    UnsupportedParameter { kind: ReferenceKind, parameter: ReferenceSourceParameter },
    NotReadable(ReferenceSourceParameter),
    NotWritable(ReferenceSourceParameter),
    TypeMismatch {
        parameter: ReferenceSourceParameter,
        expected: ParameterValueType,
        actual: ParameterValueType,
    },
    Source(ReferenceSourceError),
}

/// The description of a reference parameter error.
pub open spec fn reference_parameter_error_text(error: ReferenceParameterError) -> Seq<char> {
    match error {
        ReferenceParameterError::UnknownParameter(key) => "Unknown reference parameter '"@ + key@
            + "'"@,
        ReferenceParameterError::DuplicateParameter(parameter) => "Reference parameter '"@
            + source_parameter_key(parameter) + "' is configured more than once"@,
        ReferenceParameterError::UnsupportedParameter { kind, parameter } => "Reference type '"@
            + reference_kind_name(kind) + "' does not support parameter '"@ + source_parameter_key(
            parameter,
        ) + "'"@,
        ReferenceParameterError::NotReadable(parameter) => "Reference parameter '"@
            + source_parameter_key(parameter) + "' is not readable"@,
        ReferenceParameterError::NotWritable(parameter) => "Reference parameter '"@
            + source_parameter_key(parameter) + "' is not writable"@,
        ReferenceParameterError::TypeMismatch { parameter, expected, actual } => "Reference parameter '"@
            + source_parameter_key(parameter) + "' expects "@ + value_type_name(expected) + ", got "@
            + value_type_name(actual),
        ReferenceParameterError::Source(source) => source_error_text(source),
    }
}

impl ReferenceParameterError {
    pub fn to_string(&self) -> (text: String)
        ensures
            text@ == reference_parameter_error_text(*self),
    {
        let mut text = String::new();
        match self {
            ReferenceParameterError::UnknownParameter(key) => {
                push_str(&mut text, "Unknown reference parameter '");
                push_str(&mut text, key.as_str());
                push_str(&mut text, "'");
            },
            ReferenceParameterError::DuplicateParameter(parameter) => {
                push_str(&mut text, "Reference parameter '");
                push_str(&mut text, parameter.key());
                push_str(&mut text, "' is configured more than once");
            },
            ReferenceParameterError::UnsupportedParameter { kind, parameter } => {
                push_str(&mut text, "Reference type '");
                push_str(&mut text, kind.as_str());
                push_str(&mut text, "' does not support parameter '");
                push_str(&mut text, parameter.key());
                push_str(&mut text, "'");
            },
            ReferenceParameterError::NotReadable(parameter) => {
                push_str(&mut text, "Reference parameter '");
                push_str(&mut text, parameter.key());
                push_str(&mut text, "' is not readable");
            },
            ReferenceParameterError::NotWritable(parameter) => {
                push_str(&mut text, "Reference parameter '");
                push_str(&mut text, parameter.key());
                push_str(&mut text, "' is not writable");
            },
            ReferenceParameterError::TypeMismatch { parameter, expected, actual } => {
                push_str(&mut text, "Reference parameter '");
                push_str(&mut text, parameter.key());
                push_str(&mut text, "' expects ");
                push_str(&mut text, expected.as_str());
                push_str(&mut text, ", got ");
                push_str(&mut text, actual.as_str());
            },
            ReferenceParameterError::Source(source) => {
                let description = source.to_string();
                push_str(&mut text, description.as_str());
            },
        }
        assert(text@ =~= reference_parameter_error_text(*self));
        text
    }
}

/// Whether a reference kind has the parameter: a fixed reference its value, a ramp its start,
/// target and rate.
pub open spec fn kind_supports(kind: ReferenceKind, parameter: ReferenceSourceParameter) -> bool {
    match kind {
        ReferenceKind::Fixed => parameter is Value,
        ReferenceKind::Ramp => parameter is Start || parameter is Target || parameter is Rate,
    }
}

/// Whether a reference kind has the parameter.
pub fn supports(kind: ReferenceKind, parameter: ReferenceSourceParameter) -> (supported: bool)
    ensures
        supported == kind_supports(kind, parameter),
{
    match kind {
        ReferenceKind::Fixed => parameter == ReferenceSourceParameter::Value,
        ReferenceKind::Ramp => parameter == ReferenceSourceParameter::Start || parameter
            == ReferenceSourceParameter::Target || parameter == ReferenceSourceParameter::Rate,
    }
}

/// What is wrong with one parameter update.
#[derive(Clone, Copy, Debug, PartialEq, Eq)]
pub enum UpdateProblem {
    Unknown,
    Unsupported(ReferenceSourceParameter),
    Duplicate(ReferenceSourceParameter),
    TypeMismatch(ReferenceSourceParameter, ParameterValueType),
}

/// What is wrong with an update of `key` to `value`, after updates of the `earlier` parameters:
/// the key must name a parameter of the kind that was not updated before, and the value must be a
/// number.
pub open spec fn update_problem(
    kind: ReferenceKind,
    key: Seq<char>,
    value: InstrumentValue,
    earlier: Seq<ReferenceSourceParameter>,
) -> Option<UpdateProblem> {
    match source_parameter_with_key(key) {
        None => Some(UpdateProblem::Unknown),
        Some(parameter) => if !kind_supports(kind, parameter) {
            Some(UpdateProblem::Unsupported(parameter))
        } else if earlier.contains(parameter) {
            Some(UpdateProblem::Duplicate(parameter))
        } else {
            match value {
                InstrumentValue::Number(_) => None,
                other => Some(UpdateProblem::TypeMismatch(parameter, type_of_value(other))),
            }
        },
    }
}

/// The abstract content of a list of updates.
pub open spec fn update_views(updates: Seq<(String, InstrumentValue)>) -> Seq<(Seq<char>, InstrumentValue)> {
    updates.map_values(|update: (String, InstrumentValue)| (update.0@, update.1))
}

/// The updates resolved to parameters and number patterns, in order; or the position of the first
/// refused update and why.
pub open spec fn resolved_updates(kind: ReferenceKind, updates: Seq<(Seq<char>, InstrumentValue)>) -> Result<Seq<(ReferenceSourceParameter, u64)>, (int, UpdateProblem)>
    decreases updates.len(),
{
    if updates.len() == 0 {
        Ok(Seq::empty())
    } else {
        match resolved_updates(kind, updates.drop_last()) {
            Err(refusal) => Err(refusal),
            Ok(earlier) => {
                let (key, value) = updates.last();
                match update_problem(kind, key, value, earlier.map_values(|entry: (ReferenceSourceParameter, u64)| entry.0)) {
                    Some(problem) => Err((updates.len() - 1, problem)),
                    None => Ok(earlier.push((source_parameter_with_key(key).unwrap(), value->Number_0))),
                }
            },
        }
    }
}

/// Whether an error reports the problem with an update of `key` for a reference of `kind`.
pub open spec fn reports_problem(error: ReferenceParameterError, kind: ReferenceKind, key: Seq<char>, problem: UpdateProblem) -> bool {
    match problem {
        UpdateProblem::Unknown => error matches ReferenceParameterError::UnknownParameter(text) && text@ == key,
        UpdateProblem::Unsupported(parameter) => error == ReferenceParameterError::UnsupportedParameter { kind, parameter },
        UpdateProblem::Duplicate(parameter) => error == ReferenceParameterError::DuplicateParameter(parameter),
        UpdateProblem::TypeMismatch(parameter, actual) => error == ReferenceParameterError::TypeMismatch {
            parameter,
            expected: ParameterValueType::Number,
            actual,
        },
    }
}

/// Resolves updates of a reference of `kind` (see `resolved_updates`); the first refused update is
/// reported.
pub fn resolve_updates(kind: ReferenceKind, updates: &[(String, InstrumentValue)]) -> (result: Result<Vec<(ReferenceSourceParameter, u64)>, ReferenceParameterError>)
    ensures
        match resolved_updates(kind, update_views(updates@)) {
            Ok(resolved) => result matches Ok(list) && list@ == resolved,
            Err((index, problem)) => result matches Err(error) && reports_problem(
                error,
                kind,
                update_views(updates@)[index].0,
                problem,
            ),
        },
{
    let ghost views = update_views(updates@);
    let mut resolved: Vec<(ReferenceSourceParameter, u64)> = Vec::new();
    let mut index: usize = 0;
    while index < updates.len()
        invariant
            index <= updates@.len(),
            views == update_views(updates@),
            resolved_updates(kind, views.take(index as int)) == Ok::<Seq<(ReferenceSourceParameter, u64)>, (int, UpdateProblem)>(resolved@),
        decreases updates.len() - index,
    {
        let key = updates[index].0.as_str();
        let value = updates[index].1;
        let ghost prefix = views.take(index + 1);
        assert(prefix.drop_last() =~= views.take(index as int));
        assert(prefix.last() == (key@, value));
        let ghost earlier = resolved@.map_values(|entry: (ReferenceSourceParameter, u64)| entry.0);
        let parameter = match ReferenceSourceParameter::from_key(key) {
            Some(parameter) => parameter,
            None => {
                proof {
                    lemma_resolved_prefix_error(kind, views, index + 1);
                }
                return Err(ReferenceParameterError::UnknownParameter(key.to_owned()));
            },
        };
        if !supports(kind, parameter) {
            proof {
                lemma_resolved_prefix_error(kind, views, index + 1);
            }
            return Err(ReferenceParameterError::UnsupportedParameter { kind, parameter });
        }
        if already_resolved(&resolved, parameter) {
            proof {
                lemma_resolved_prefix_error(kind, views, index + 1);
            }
            return Err(ReferenceParameterError::DuplicateParameter(parameter));
        }
        assert(!earlier.contains(parameter));
        let bits = match value {
            InstrumentValue::Number(bits) => bits,
            other => {
                proof {
                    lemma_resolved_prefix_error(kind, views, index + 1);
                }
                return Err(
                    ReferenceParameterError::TypeMismatch {
                        parameter,
                        expected: ParameterValueType::Number,
                        actual: instrument_value_type(other),
                    },
                );
            },
        };
        resolved.push((parameter, bits));
        index += 1;
    }
    assert(views.take(updates@.len() as int) =~= views);
    Ok(resolved)
}

/// Whether a parameter is among those already resolved.
fn already_resolved(resolved: &Vec<(ReferenceSourceParameter, u64)>, parameter: ReferenceSourceParameter) -> (found: bool)
    ensures
        found == resolved@.map_values(|entry: (ReferenceSourceParameter, u64)| entry.0).contains(parameter),
{
    let ghost earlier = resolved@.map_values(|entry: (ReferenceSourceParameter, u64)| entry.0);
    let mut position: usize = 0;
    while position < resolved.len()
        invariant
            position <= resolved@.len(),
            earlier == resolved@.map_values(|entry: (ReferenceSourceParameter, u64)| entry.0),
            forall|k: int| 0 <= k < position ==> earlier[k] != parameter,
        decreases resolved.len() - position,
    {
        if resolved[position].0 == parameter {
            assert(earlier[position as int] == parameter);
            return true;
        }
        position += 1;
    }
    false
}

/// A refusal among the first `count` updates is the refusal of the whole list.
proof fn lemma_resolved_prefix_error(kind: ReferenceKind, updates: Seq<(Seq<char>, InstrumentValue)>, count: int)
    requires
        0 <= count <= updates.len(),
        resolved_updates(kind, updates.take(count)) is Err,
    ensures
        resolved_updates(kind, updates) == resolved_updates(kind, updates.take(count)),
    decreases updates.len() - count,
{
    if count < updates.len() {
        assert(updates.take(count + 1).drop_last() =~= updates.take(count));
        lemma_resolved_prefix_error(kind, updates, count + 1);
    } else {
        assert(updates.take(count) =~= updates);
    }
}

/// Accepted updates resolve one for one, in order: each key to the parameter it names, which the
/// kind supports and no other update names, and each value to its number.
pub proof fn lemma_resolved_updates_one_for_one(kind: ReferenceKind, updates: Seq<(Seq<char>, InstrumentValue)>)
    ensures
        resolved_updates(kind, updates) matches Ok(resolved) ==> {
            &&& resolved.len() == updates.len()
            &&& forall|k: int| 0 <= k < resolved.len() ==> {
                &&& source_parameter_with_key(updates[k].0) == Some(#[trigger] resolved[k].0)
                &&& kind_supports(kind, resolved[k].0)
                &&& updates[k].1 == InstrumentValue::Number(resolved[k].1)
            }
            &&& forall|j: int, k: int| 0 <= j < k < resolved.len() ==> #[trigger] resolved[j].0
                != #[trigger] resolved[k].0
        },
    decreases updates.len(),
{
    if updates.len() > 0 {
        let rest = updates.drop_last();
        lemma_resolved_updates_one_for_one(kind, rest);
        if let Ok(earlier) = resolved_updates(kind, rest) {
            let (key, value) = updates.last();
            let names = earlier.map_values(|entry: (ReferenceSourceParameter, u64)| entry.0);
            if update_problem(kind, key, value, names) is None {
                let parameter = source_parameter_with_key(key)->Some_0;
                let resolved = earlier.push((parameter, value->Number_0));
                assert(!names.contains(parameter));
                assert forall|k: int| 0 <= k < resolved.len() implies {
                    &&& source_parameter_with_key(updates[k].0) == Some(#[trigger] resolved[k].0)
                    &&& kind_supports(kind, resolved[k].0)
                    &&& updates[k].1 == InstrumentValue::Number(resolved[k].1)
                } by {
                    if k < earlier.len() {
                        assert(resolved[k] == earlier[k]);
                        assert(updates[k] == rest[k]);
                    }
                }
                assert forall|j: int, k: int| 0 <= j < k < resolved.len() implies #[trigger] resolved[j].0
                    != #[trigger] resolved[k].0 by {
                    assert(resolved[j] == earlier[j]);
                    if k == earlier.len() {
                        assert(names[j] == earlier[j].0);
                    } else {
                        assert(resolved[k] == earlier[k]);
                    }
                }
            }
        }
    }
}

/// Two updates of the same supported parameter are refused: the second is a duplicate.
pub proof fn lemma_repeated_parameter_refused(kind: ReferenceKind, key: Seq<char>, first: u64, second: u64)
    requires
        source_parameter_with_key(key) matches Some(parameter) && kind_supports(kind, parameter),
    ensures
        resolved_updates(
            kind,
            seq![(key, InstrumentValue::Number(first)), (key, InstrumentValue::Number(second))],
        ) == Err::<Seq<(ReferenceSourceParameter, u64)>, (int, UpdateProblem)>(
            (1, UpdateProblem::Duplicate(source_parameter_with_key(key)->Some_0)),
        ),
{
    let parameter = source_parameter_with_key(key)->Some_0;
    let pair = seq![(key, InstrumentValue::Number(first)), (key, InstrumentValue::Number(second))];
    let single = seq![(key, InstrumentValue::Number(first))];
    let none = Seq::<(Seq<char>, InstrumentValue)>::empty();
    assert(pair.drop_last() =~= single);
    assert(single.drop_last() =~= none);
    assert(resolved_updates(kind, none) is Ok);
    let earlier = seq![(parameter, first)];
    assert(resolved_updates(kind, single) == Ok::<Seq<(ReferenceSourceParameter, u64)>, (int, UpdateProblem)>(earlier)) by {
        assert(Seq::<(ReferenceSourceParameter, u64)>::empty().push((parameter, first)) =~= earlier);
    }
    let names = earlier.map_values(|entry: (ReferenceSourceParameter, u64)| entry.0);
    assert(names[0] == parameter);
}

/// A fixed reference has exactly one parameter, its value; a ramp exactly its start, target and
/// rate. So updates of a fixed reference that are accepted set only its value, those of a ramp
/// never set a value, and an update of one key that names a parameter of the other kind is
/// refused as unsupported, at its position.
pub proof fn lemma_reference_kind_parameters(
    updates: Seq<(Seq<char>, InstrumentValue)>,
    key: Seq<char>,
    value: InstrumentValue,
)
    ensures
        forall|parameter: ReferenceSourceParameter| #[trigger]
            kind_supports(ReferenceKind::Fixed, parameter) <==> parameter == ReferenceSourceParameter::Value,
        forall|parameter: ReferenceSourceParameter| #[trigger]
            kind_supports(ReferenceKind::Ramp, parameter) <==> parameter != ReferenceSourceParameter::Value,
        resolved_updates(ReferenceKind::Fixed, updates) matches Ok(resolved) ==> forall|k: int|
            0 <= k < resolved.len() ==> #[trigger] resolved[k].0 == ReferenceSourceParameter::Value,
        resolved_updates(ReferenceKind::Ramp, updates) matches Ok(resolved) ==> forall|k: int|
            0 <= k < resolved.len() ==> #[trigger] resolved[k].0 != ReferenceSourceParameter::Value,
        source_parameter_with_key(key) is Some && source_parameter_with_key(key)->Some_0
            != ReferenceSourceParameter::Value ==> resolved_updates(ReferenceKind::Fixed, seq![(key, value)])
            == Err::<Seq<(ReferenceSourceParameter, u64)>, (int, UpdateProblem)>(
            (0, UpdateProblem::Unsupported(source_parameter_with_key(key)->Some_0)),
        ),
        source_parameter_with_key(key) == Some(ReferenceSourceParameter::Value) ==> resolved_updates(
            ReferenceKind::Ramp,
            seq![(key, value)],
        ) == Err::<Seq<(ReferenceSourceParameter, u64)>, (int, UpdateProblem)>(
            (0, UpdateProblem::Unsupported(ReferenceSourceParameter::Value)),
        ),
{
    lemma_resolved_updates_one_for_one(ReferenceKind::Fixed, updates);
    lemma_resolved_updates_one_for_one(ReferenceKind::Ramp, updates);
    let single = seq![(key, value)];
    let none = Seq::<(Seq<char>, InstrumentValue)>::empty();
    assert(single.drop_last() =~= none);
    assert(single.last() == (key, value));
    assert(resolved_updates(ReferenceKind::Fixed, none) is Ok);
    assert(resolved_updates(ReferenceKind::Ramp, none) is Ok);
}

/// The parameter a read of `key` from a reference of `kind` addresses, or why it is refused.
pub fn check_read(kind: ReferenceKind, key: &str) -> (result: Result<ReferenceSourceParameter, ReferenceParameterError>)
    ensures
        match source_parameter_with_key(key@) {
            None => result matches Err(ReferenceParameterError::UnknownParameter(text)) && text@ == key@,
            Some(parameter) => if kind_supports(kind, parameter) {
                result == Ok::<ReferenceSourceParameter, ReferenceParameterError>(parameter)
            } else {
                result == Err::<ReferenceSourceParameter, ReferenceParameterError>(
                    ReferenceParameterError::UnsupportedParameter { kind, parameter },
                )
            },
        },
{
    let parameter = match ReferenceSourceParameter::from_key(key) {
        Some(parameter) => parameter,
        None => return Err(ReferenceParameterError::UnknownParameter(key.to_owned())),
    };
    if !supports(kind, parameter) {
        return Err(ReferenceParameterError::UnsupportedParameter { kind, parameter });
    }
    Ok(parameter)
}

/// Whether some update names a ramp's start: such a configuration restarts the ramp from the new
/// start, while one that changes only its target or rate continues from the current value.
pub fn changes_ramp_start(updates: &[(String, InstrumentValue)]) -> (changes: bool)
    ensures
        changes == exists|k: int|
            0 <= k < updates@.len() && source_parameter_with_key(#[trigger] updates@[k].0@)
                == Some(ReferenceSourceParameter::Start),
{
    let mut index: usize = 0;
    while index < updates.len()
        invariant
            index <= updates@.len(),
            forall|k: int|
                0 <= k < index ==> source_parameter_with_key(#[trigger] updates@[k].0@) != Some(
                    ReferenceSourceParameter::Start,
                ),
        decreases updates.len() - index,
    {
        if ReferenceSourceParameter::from_key(updates[index].0.as_str()) == Some(ReferenceSourceParameter::Start) {
            return true;
        }
        index += 1;
    }
    false
}

} // verus!
