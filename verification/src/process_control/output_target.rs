//! The rule for parameters that a controller may drive, and its errors.
use vstd::prelude::*;

use crate::instrument::{ParameterAccess, ParameterValueType};
use crate::text::push_str;

verus! {

#[derive(Clone, Debug, PartialEq, Eq)]
pub enum ControlOutputTargetError {
    ReadOnlyParameter(String),
    NonNumericParameter(String),
    InvalidScale,
}

/// The description of an output target error.
pub open spec fn output_target_error_text(error: ControlOutputTargetError) -> Seq<char> {
    match error {
        ControlOutputTargetError::ReadOnlyParameter(parameter) => "Output parameter '"@ + parameter@
            + "' is read-only"@,
        ControlOutputTargetError::NonNumericParameter(parameter) => "Output parameter '"@
            + parameter@ + "' must be numeric"@,
        ControlOutputTargetError::InvalidScale => "Metakon output scale must be finite and greater than zero"@,
    }
}

impl ControlOutputTargetError {
    pub fn to_string(&self) -> (text: String)
        ensures
            text@ == output_target_error_text(*self),
    {
        let mut text = String::new();
        match self {
            ControlOutputTargetError::ReadOnlyParameter(parameter) => {
                push_str(&mut text, "Output parameter '");
                push_str(&mut text, parameter.as_str());
                push_str(&mut text, "' is read-only");
            },
            ControlOutputTargetError::NonNumericParameter(parameter) => {
                push_str(&mut text, "Output parameter '");
                push_str(&mut text, parameter.as_str());
                push_str(&mut text, "' must be numeric");
            },
            ControlOutputTargetError::InvalidScale => {
                push_str(&mut text, "Metakon output scale must be finite and greater than zero");
            },
        }
        assert(text@ =~= output_target_error_text(*self));
        text
    }
}

/// Checks that a parameter can take a controller's output: it must be writable and not boolean.
pub fn validate_numeric_output(key: &str, access: ParameterAccess, value_type: ParameterValueType) -> (result: Result<(), ControlOutputTargetError>)
    ensures
        !access.is_writable() ==> (result matches Err(
            ControlOutputTargetError::ReadOnlyParameter(name),
        ) && name@ == key@),
        access.is_writable() && value_type == ParameterValueType::Boolean ==> (result matches Err(
            ControlOutputTargetError::NonNumericParameter(name),
        ) && name@ == key@),
        access.is_writable() && value_type != ParameterValueType::Boolean ==> result is Ok,
{
    if !access.writable() {
        return Err(ControlOutputTargetError::ReadOnlyParameter(key.to_owned()));
    }
    if value_type == ParameterValueType::Boolean {
        return Err(ControlOutputTargetError::NonNumericParameter(key.to_owned()));
    }
    Ok(())
}

} // verus!
