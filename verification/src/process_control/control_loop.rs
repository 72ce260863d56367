//! The run state of control loops, the naming rule for loops, the rules a reference source
//! imposes on a loop's setpoint, and loop errors.
use vstd::prelude::*;

use crate::instrument::{InstrumentValue, ParameterAccess, ParameterDescriptor};
use crate::process_control::reference::{
    reference_parameter_error_text, reference_parameter_key, reference_parameter_with_key,
    unbounded_number, ReferenceParameter, ReferenceParameterError,
};
use crate::text::{is_whitespace, push_str};

verus! {

#[derive(Clone, Copy, Debug, PartialEq, Eq, Structural)]
pub enum ControlLoopState {
    Running,
    Paused,
}

/// The name of a loop state.
pub open spec fn loop_state_name(state: ControlLoopState) -> Seq<char> {
    match state {
        ControlLoopState::Running => "running"@,
        ControlLoopState::Paused => "paused"@,
    }
}

impl ControlLoopState {
    pub fn as_str(self) -> (name: &'static str)
        ensures
            name@ == loop_state_name(self),
    {
        match self {
            ControlLoopState::Running => "running",
            ControlLoopState::Paused => "paused",
        }
    }
}

impl ControlLoopState {
    /// Whether a loop in this state processes samples.
    pub fn is_running(self) -> (running: bool)
        ensures
            running == (self == ControlLoopState::Running),
    {
        self == ControlLoopState::Running
    }

    /// The state after pausing: paused, whatever it was.
    pub fn paused(self) -> (next: Self)
        ensures
            next == ControlLoopState::Paused,
    {
        ControlLoopState::Paused
    }

    /// The state after resuming: running; and whether the controller and reference must be
    /// resynchronized, which they must exactly when the loop was paused.
    pub fn resumed(self) -> (next: (Self, bool))
        ensures
            next.0 == ControlLoopState::Running,
            next.1 == (self == ControlLoopState::Paused),
    {
        (ControlLoopState::Running, self == ControlLoopState::Paused)
    }
}

/// The access of a loop's setpoint: read-only while a reference source drives it, readable and
/// writable otherwise.
pub open spec fn setpoint_access(reference_active: bool) -> ParameterAccess {
    if reference_active {
        ParameterAccess::ReadOnly
    } else {
        ParameterAccess::ReadWrite
    }
}

/// The metadata of a loop's setpoint (see `setpoint_access`).
pub fn loop_setpoint_descriptor(reference_active: bool) -> (descriptor: ParameterDescriptor)
    ensures
        descriptor.key@ == reference_parameter_key(ReferenceParameter::Setpoint),
        descriptor.name@ == reference_parameter_key(ReferenceParameter::Setpoint),
        descriptor.access == setpoint_access(reference_active),
        descriptor.value_type == crate::instrument::ParameterValueType::Number,
        descriptor.range == unbounded_number(),
{
    let mut descriptor = ReferenceParameter::Setpoint.descriptor();
    if reference_active {
        descriptor.access = ParameterAccess::ReadOnly;
    }
    descriptor
}

/// The reference parameter that a write of `key` would change although a reference source
/// manages it: the setpoint, when a reference is active; `None` when the write may go ahead.
pub fn managed_by_reference(reference_active: bool, key: &str) -> (managed: Option<ReferenceParameter>)
    ensures
        managed == (if reference_active {
            reference_parameter_with_key(key@)
        } else {
            None
        }),
{
    if reference_active {
        ReferenceParameter::from_key(key)
    } else {
        None
    }
}

/// The first update that a reference source manages, when one is active: a configuration that
/// holds it is refused as a whole. `None` when the updates may go ahead.
pub fn managed_update(reference_active: bool, updates: &[(String, InstrumentValue)]) -> (managed: Option<ReferenceParameter>)
    ensures
        !reference_active ==> managed is None,
        reference_active ==> (managed is None <==> forall|k: int|
            0 <= k < updates@.len() ==> #[trigger] reference_parameter_with_key(updates@[k].0@) is None),
        managed matches Some(parameter) ==> exists|k: int|
            0 <= k < updates@.len() && #[trigger] reference_parameter_with_key(updates@[k].0@) == Some(
                parameter,
            ),
{
    if !reference_active {
        return None;
    }
    let mut index: usize = 0;
    while index < updates.len()
        invariant
            reference_active,
            index <= updates@.len(),
            forall|k: int| 0 <= k < index ==> #[trigger] reference_parameter_with_key(updates@[k].0@) is None,
        decreases updates.len() - index,
    {
        match ReferenceParameter::from_key(updates[index].0.as_str()) {
            Some(parameter) => {
                assert(reference_parameter_with_key(updates@[index as int].0@) == Some(parameter));
                return Some(parameter);
            },
            None => {},
        }
        index += 1;
    }
    None
}

impl Default for ControlLoopState {
    fn default() -> (state: Self)
        ensures
            state == ControlLoopState::Running,
    {
        ControlLoopState::Running
    }
}

#[derive(Clone, Debug, PartialEq, Eq)]
pub enum ControlLoopReferenceError {
    NotConfigured,
    Parameter(ReferenceParameterError),
}

/// The description of a loop reference error.
pub open spec fn loop_reference_error_text(error: ControlLoopReferenceError) -> Seq<char> {
    match error {
        ControlLoopReferenceError::NotConfigured => "Control loop has no reference source"@,
        ControlLoopReferenceError::Parameter(parameter) => reference_parameter_error_text(parameter),
    }
}

impl ControlLoopReferenceError {
    pub fn to_string(&self) -> (text: String)
        ensures
            text@ == loop_reference_error_text(*self),
    {
        match self {
            ControlLoopReferenceError::NotConfigured => "Control loop has no reference source".to_owned(),
            ControlLoopReferenceError::Parameter(parameter) => parameter.to_string(),
        }
    }
}

#[derive(Clone, Copy, Debug, PartialEq, Eq, Structural)]
pub enum ControlLoopDefinitionError {
    EmptyName,
    NameContainsWhitespace,
}

/// The description of a loop definition error.
pub open spec fn loop_definition_error_text(error: ControlLoopDefinitionError) -> Seq<char> {
    match error {
        ControlLoopDefinitionError::EmptyName => "Control loop name cannot be empty"@,
        ControlLoopDefinitionError::NameContainsWhitespace => "Control loop name cannot contain whitespace"@,
    }
}

impl ControlLoopDefinitionError {
    pub fn to_string(&self) -> (text: String)
        ensures
            text@ == loop_definition_error_text(*self),
    {
        let text = match self {
            ControlLoopDefinitionError::EmptyName => "Control loop name cannot be empty",
            ControlLoopDefinitionError::NameContainsWhitespace => "Control loop name cannot contain whitespace",
        };
        text.to_owned()
    }
}

/// Whether every character is whitespace.
pub open spec fn is_blank(text: Seq<char>) -> bool {
    forall|i: int| 0 <= i < text.len() ==> is_whitespace(#[trigger] text[i])
}

/// Whether some character is whitespace.
pub open spec fn has_whitespace(text: Seq<char>) -> bool {
    exists|i: int| 0 <= i < text.len() && is_whitespace(#[trigger] text[i])
}

/// The count of leading whitespace characters.
pub open spec fn leading_whitespace(text: Seq<char>) -> nat
    decreases text.len(),
{
    if text.len() > 0 && is_whitespace(text[0]) {
        1 + leading_whitespace(text.drop_first())
    } else {
        0
    }
}

/// The count of trailing whitespace characters.
pub open spec fn trailing_whitespace(text: Seq<char>) -> nat
    decreases text.len(),
{
    if text.len() > 0 && is_whitespace(text.last()) {
        1 + trailing_whitespace(text.drop_last())
    } else {
        0
    }
}

/// The text without its leading and trailing whitespace.
pub open spec fn trimmed(text: Seq<char>) -> Seq<char> {
    let start = leading_whitespace(text);
    let rest = text.skip(start as int);
    rest.take(rest.len() - trailing_whitespace(rest))
}

/// A loop name after trimming: refused when nothing is left, or when whitespace remains inside.
pub open spec fn loop_name(name: Seq<char>) -> Result<Seq<char>, ControlLoopDefinitionError> {
    if trimmed(name).len() == 0 {
        Err(ControlLoopDefinitionError::EmptyName)
    } else if has_whitespace(trimmed(name)) {
        Err(ControlLoopDefinitionError::NameContainsWhitespace)
    } else {
        Ok(trimmed(name))
    }
}

proof fn lemma_leading_whitespace(text: Seq<char>, count: int)
    requires
        0 <= count <= text.len(),
        forall|i: int| 0 <= i < count ==> is_whitespace(#[trigger] text[i]),
        count == text.len() || !is_whitespace(text[count]),
    ensures
        leading_whitespace(text) == count,
    decreases count,
{
    if count > 0 {
        assert forall|i: int| 0 <= i < count - 1 implies is_whitespace(#[trigger] text.drop_first()[i]) by {
            assert(text.drop_first()[i] == text[i + 1]);
        }
        if count < text.len() {
            assert(text.drop_first()[count - 1] == text[count]);
        }
        lemma_leading_whitespace(text.drop_first(), count - 1);
    }
}

proof fn lemma_trailing_whitespace(text: Seq<char>, count: int)
    requires
        0 <= count <= text.len(),
        forall|i: int| text.len() - count <= i < text.len() ==> is_whitespace(#[trigger] text[i]),
        count == text.len() || !is_whitespace(text[text.len() - count - 1]),
    ensures
        trailing_whitespace(text) == count,
    decreases count,
{
    if count > 0 {
        let shorter = text.drop_last();
        assert forall|i: int| shorter.len() - (count - 1) <= i < shorter.len() implies is_whitespace(
            #[trigger] shorter[i],
        ) by {
            assert(shorter[i] == text[i]);
        }
        if count < text.len() {
            assert(shorter[shorter.len() - (count - 1) - 1] == text[text.len() - count - 1]);
        }
        lemma_trailing_whitespace(shorter, count - 1);
    }
}

/// Trims a loop name (see `loop_name`).
pub fn normalize_name(name: &str) -> (result: Result<String, ControlLoopDefinitionError>)
    ensures
        match loop_name(name@) {
            Ok(normalized) => result matches Ok(text) && text@ == normalized,
            Err(error) => result == Err::<String, ControlLoopDefinitionError>(error),
        },
{
    let length = name.unicode_len();
    let mut start: usize = 0;
    while start < length && crate::text::whitespace(name.get_char(start))
        invariant
            length == name@.len(),
            start <= length,
            forall|i: int| 0 <= i < start ==> is_whitespace(#[trigger] name@[i]),
        decreases length - start,
    {
        start += 1;
    }
    proof {
        lemma_leading_whitespace(name@, start as int);
    }
    let ghost rest = name@.skip(start as int);
    let mut end: usize = length;
    while end > start && crate::text::whitespace(name.get_char(end - 1))
        invariant
            length == name@.len(),
            start <= end <= length,
            rest == name@.skip(start as int),
            forall|i: int| end <= i < length ==> is_whitespace(#[trigger] name@[i]),
        decreases end - start,
    {
        end -= 1;
    }
    proof {
        let count = (length - end) as int;
        assert forall|i: int| rest.len() - count <= i < rest.len() implies is_whitespace(#[trigger] rest[i]) by {
            assert(rest[i] == name@[i + start]);
        }
        if count < rest.len() {
            assert(rest[rest.len() - count - 1] == name@[end - 1]);
        }
        lemma_trailing_whitespace(rest, count);
    }
    let trimmed_name = name.substring_char(start, end);
    assert(trimmed_name@ =~= trimmed(name@));
    if start == end {
        return Err(ControlLoopDefinitionError::EmptyName);
    }
    let mut index: usize = start;
    while index < end
        invariant
            start <= index <= end <= length,
            length == name@.len(),
            start < end,
            trimmed_name@ == name@.subrange(start as int, end as int),
            trimmed_name@ == trimmed(name@),
            forall|i: int| start <= i < index ==> !is_whitespace(#[trigger] name@[i]),
        decreases end - index,
    {
        if crate::text::whitespace(name.get_char(index)) {
            assert(trimmed_name@[index - start] == name@[index as int]);
            assert(is_whitespace(trimmed_name@[index - start]));
            return Err(ControlLoopDefinitionError::NameContainsWhitespace);
        }
        index += 1;
    }
    assert(!has_whitespace(trimmed_name@)) by {
        if has_whitespace(trimmed_name@) {
            let i = choose|i: int| 0 <= i < trimmed_name@.len() && is_whitespace(#[trigger] trimmed_name@[i]);
            assert(trimmed_name@[i] == name@[i + start]);
        }
    }
    Ok(trimmed_name.to_owned())
}

} // verus!
