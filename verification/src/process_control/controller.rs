//! Controller kinds and operations, the errors for requests a kind does not support, and the
//! errors of reading and writing controller parameters by key.
use vstd::prelude::*;

use crate::instrument::{
    instrument_value_type, type_of_value, value_type_name, InstrumentValue, ParameterValueType,
};
use crate::process_control::diagnostic::{diagnostic_key, ControllerDiagnostic};
use crate::process_control::furnace::{furnace_parameter_with_key, FurnaceParameter};
use crate::text::{push_str, str_eq};

verus! {

#[derive(Clone, Copy, Debug, PartialEq, Eq, Hash, Structural)]
pub enum ControllerKind {
    Pid,
    OnOff,
    Furnace,
}

/// The name of a controller kind.
pub open spec fn controller_kind_name(kind: ControllerKind) -> Seq<char> {
    match kind {
        ControllerKind::Pid => "pid"@,
        ControllerKind::OnOff => "on_off"@,
        ControllerKind::Furnace => "furnace"@,
    }
}

impl ControllerKind {
    pub fn as_str(self) -> (name: &'static str)
        ensures
            name@ == controller_kind_name(self),
    {
        match self {
            ControllerKind::Pid => "pid",
            ControllerKind::OnOff => "on_off",
            ControllerKind::Furnace => "furnace",
        }
    }

    /// The kind's name.
    pub fn to_string(&self) -> (text: String)
        ensures
            text@ == controller_kind_name(*self),
    {
        self.as_str().to_owned()
    }
}

#[derive(Clone, Copy, Debug, PartialEq, Eq, Structural)]
pub enum ControllerOperation {
    ResetIntegral,
}

/// The name of a controller operation.
pub open spec fn operation_name(operation: ControllerOperation) -> Seq<char> {
    match operation {
        ControllerOperation::ResetIntegral => "reset_integral"@,
    }
}

impl ControllerOperation {
    pub fn as_str(self) -> (name: &'static str)
        ensures
            name@ == operation_name(self),
    {
        match self {
            ControllerOperation::ResetIntegral => "reset_integral",
        }
    }
}

#[derive(Clone, Copy, Debug, PartialEq, Eq)]
pub enum ControllerOperationError {
    Unsupported { kind: ControllerKind, operation: ControllerOperation },
}

/// The description of an operation error.
pub open spec fn operation_error_text(error: ControllerOperationError) -> Seq<char> {
    match error {
        ControllerOperationError::Unsupported { kind, operation } => "Controller type '"@
            + controller_kind_name(kind) + "' does not support operation '"@ + operation_name(
            operation,
        ) + "'"@,
    }
}

impl ControllerOperationError {
    pub fn to_string(&self) -> (text: String)
        ensures
            text@ == operation_error_text(*self),
    {
        match *self {
            ControllerOperationError::Unsupported { kind, operation } => {
                let mut text = String::new();
                push_str(&mut text, "Controller type '");
                push_str(&mut text, kind.as_str());
                push_str(&mut text, "' does not support operation '");
                push_str(&mut text, operation.as_str());
                push_str(&mut text, "'");
                assert(text@ =~= operation_error_text(*self));
                text
            },
        }
    }
}

#[derive(Clone, Copy, Debug, PartialEq, Eq)]
pub enum ControllerDiagnosticError {
    Unsupported { kind: ControllerKind, diagnostic: ControllerDiagnostic },
}

/// The description of a diagnostic error.
pub open spec fn diagnostic_error_text(error: ControllerDiagnosticError) -> Seq<char> {
    match error {
        ControllerDiagnosticError::Unsupported { kind, diagnostic } => "Controller type '"@
            + controller_kind_name(kind) + "' does not support diagnostic '"@ + diagnostic_key(
            diagnostic,
        ) + "'"@,
    }
}

impl ControllerDiagnosticError {
    pub fn to_string(&self) -> (text: String)
        ensures
            text@ == diagnostic_error_text(*self),
    {
        match *self {
            ControllerDiagnosticError::Unsupported { kind, diagnostic } => {
                let mut text = String::new();
                push_str(&mut text, "Controller type '");
                push_str(&mut text, kind.as_str());
                push_str(&mut text, "' does not support diagnostic '");
                push_str(&mut text, diagnostic.key());
                push_str(&mut text, "'");
                assert(text@ =~= diagnostic_error_text(*self));
                text
            },
        }
    }
}

/// The diagnostics a kind of controller reports, in order: a PID controller all six, an on/off
/// controller its setpoint and output, a furnace controller all but the derivative.
pub open spec fn kind_diagnostics(kind: ControllerKind) -> Seq<ControllerDiagnostic> {
    match kind {
        ControllerKind::Pid => seq![
            ControllerDiagnostic::Setpoint,
            ControllerDiagnostic::Proportional,
            ControllerDiagnostic::Integral,
            ControllerDiagnostic::Derivative,
            ControllerDiagnostic::Output,
            ControllerDiagnostic::UnconstrainedOutput,
        ],
        ControllerKind::OnOff => seq![ControllerDiagnostic::Setpoint, ControllerDiagnostic::Output],
        ControllerKind::Furnace => seq![
            ControllerDiagnostic::Setpoint,
            ControllerDiagnostic::Proportional,
            ControllerDiagnostic::Integral,
            ControllerDiagnostic::Output,
            ControllerDiagnostic::UnconstrainedOutput,
        ],
    }
}

impl ControllerKind {
    /// The diagnostics this kind of controller reports (see `kind_diagnostics`).
    pub fn diagnostics(self) -> (diagnostics: Vec<ControllerDiagnostic>)
        ensures
            diagnostics@ == kind_diagnostics(self),
    {
        let diagnostics = match self {
            ControllerKind::Pid => vec![
                ControllerDiagnostic::Setpoint,
                ControllerDiagnostic::Proportional,
                ControllerDiagnostic::Integral,
                ControllerDiagnostic::Derivative,
                ControllerDiagnostic::Output,
                ControllerDiagnostic::UnconstrainedOutput,
            ],
            ControllerKind::OnOff => vec![ControllerDiagnostic::Setpoint, ControllerDiagnostic::Output],
            ControllerKind::Furnace => vec![
                ControllerDiagnostic::Setpoint,
                ControllerDiagnostic::Proportional,
                ControllerDiagnostic::Integral,
                ControllerDiagnostic::Output,
                ControllerDiagnostic::UnconstrainedOutput,
            ],
        };
        assert(diagnostics@ =~= kind_diagnostics(self));
        diagnostics
    }

    /// Accepts a diagnostic this kind reports; refuses any other as unsupported.
    pub fn validate_diagnostic(self, diagnostic: ControllerDiagnostic) -> (result: Result<(), ControllerDiagnosticError>)
        ensures
            kind_diagnostics(self).contains(diagnostic) <==> result is Ok,
            result is Err ==> result == Err::<(), ControllerDiagnosticError>(
                ControllerDiagnosticError::Unsupported { kind: self, diagnostic },
            ),
    {
        let diagnostics = self.diagnostics();
        let mut index: usize = 0;
        while index < diagnostics.len()
            invariant
                diagnostics@ == kind_diagnostics(self),
                index <= diagnostics@.len(),
                forall|k: int| 0 <= k < index ==> diagnostics@[k] != diagnostic,
            decreases diagnostics.len() - index,
        {
            if diagnostics[index] == diagnostic {
                assert(diagnostics@[index as int] == diagnostic);
                return Ok(());
            }
            index += 1;
        }
        Err(ControllerDiagnosticError::Unsupported { kind: self, diagnostic })
    }

    /// Accepts an operation this kind supports: every kind but on/off resets its integral.
    pub fn validate_operation(self, operation: ControllerOperation) -> (result: Result<(), ControllerOperationError>)
        ensures
            self != ControllerKind::OnOff <==> result is Ok,
            result is Err ==> result == Err::<(), ControllerOperationError>(
                ControllerOperationError::Unsupported { kind: self, operation },
            ),
    {
        match self {
            ControllerKind::OnOff => Err(ControllerOperationError::Unsupported { kind: self, operation }),
            _ => Ok(()),
        }
    }
}

/// A refused read or write of a controller parameter: the key, or the value's type, does not fit
/// the controller.
#[derive(Clone, Debug, PartialEq, Eq)]
pub enum ParameterAccessError {
    UnknownParameter(String),
    DuplicateParameter(String),
    UnsupportedParameter { kind: ControllerKind, key: String },
    NotReadable(String),
    NotWritable(String),
    TypeMismatch { key: String, expected: ParameterValueType, actual: ParameterValueType },
}

/// The description of a parameter access error.
pub open spec fn parameter_access_error_text(error: ParameterAccessError) -> Seq<char> {
    match error {
        ParameterAccessError::UnknownParameter(key) => "Unknown controller parameter '"@ + key@
            + "'"@,
        ParameterAccessError::DuplicateParameter(key) => "Controller parameter '"@ + key@
            + "' was configured more than once"@,
        ParameterAccessError::UnsupportedParameter { kind, key } => "Controller type '"@
            + controller_kind_name(kind) + "' does not support parameter '"@ + key@ + "'"@,
        ParameterAccessError::NotReadable(key) => "Controller parameter '"@ + key@
            + "' is not readable"@,
        ParameterAccessError::NotWritable(key) => "Controller parameter '"@ + key@
            + "' is not writable"@,
        ParameterAccessError::TypeMismatch { key, expected, actual } => "Controller parameter '"@
            + key@ + "' expects "@ + value_type_name(expected) + ", received "@ + value_type_name(
            actual,
        ),
    }
}

impl ParameterAccessError {
    pub fn to_string(&self) -> (text: String)
        ensures
            text@ == parameter_access_error_text(*self),
    {
        let mut text = String::new();
        match self {
            ParameterAccessError::UnknownParameter(key) => {
                push_str(&mut text, "Unknown controller parameter '");
                push_str(&mut text, key.as_str());
                push_str(&mut text, "'");
            },
            ParameterAccessError::DuplicateParameter(key) => {
                push_str(&mut text, "Controller parameter '");
                push_str(&mut text, key.as_str());
                push_str(&mut text, "' was configured more than once");
            },
            ParameterAccessError::UnsupportedParameter { kind, key } => {
                push_str(&mut text, "Controller type '");
                push_str(&mut text, kind.as_str());
                push_str(&mut text, "' does not support parameter '");
                push_str(&mut text, key.as_str());
                push_str(&mut text, "'");
            },
            ParameterAccessError::NotReadable(key) => {
                push_str(&mut text, "Controller parameter '");
                push_str(&mut text, key.as_str());
                push_str(&mut text, "' is not readable");
            },
            ParameterAccessError::NotWritable(key) => {
                push_str(&mut text, "Controller parameter '");
                push_str(&mut text, key.as_str());
                push_str(&mut text, "' is not writable");
            },
            ParameterAccessError::TypeMismatch { key, expected, actual } => {
                push_str(&mut text, "Controller parameter '");
                push_str(&mut text, key.as_str());
                push_str(&mut text, "' expects ");
                push_str(&mut text, expected.as_str());
                push_str(&mut text, ", received ");
                push_str(&mut text, actual.as_str());
            },
        }
        assert(text@ =~= parameter_access_error_text(*self));
        text
    }
}

/// Whether the key names a parameter of a PID controller.
pub open spec fn is_pid_parameter_key(key: Seq<char>) -> bool {
    key == "setpoint"@ || key == "kp"@ || key == "ki"@ || key == "kd"@ || key == "output_min"@
        || key == "output_max"@
}

/// Whether the key names a parameter of an on/off controller.
pub open spec fn is_on_off_parameter_key(key: Seq<char>) -> bool {
    key == "setpoint"@ || key == "hysteresis"@ || key == "output_off"@ || key == "output_on"@
}

/// Whether the key names a parameter of some kind of controller.
pub open spec fn is_controller_parameter_key(key: Seq<char>) -> bool {
    is_pid_parameter_key(key) || is_on_off_parameter_key(key) || furnace_parameter_with_key(key)
        is Some
}

/// Whether the key names a parameter of some kind of controller.
pub fn controller_parameter_key(key: &str) -> (known: bool)
    ensures
        known == is_controller_parameter_key(key@),
{
    str_eq(key, "setpoint") || str_eq(key, "kp") || str_eq(key, "ki") || str_eq(key, "kd")
        || str_eq(key, "output_min") || str_eq(key, "output_max") || str_eq(key, "hysteresis")
        || str_eq(key, "output_off") || str_eq(key, "output_on") || FurnaceParameter::from_key(
        key,
    ).is_some()
}

/// Whether an error is the one for a key that a controller of `kind` does not have: a key of
/// another kind of controller is unsupported, any other key is unknown.
pub open spec fn reports_missing_key(error: ParameterAccessError, kind: ControllerKind, key: Seq<char>) -> bool {
    if is_controller_parameter_key(key) {
        error matches ParameterAccessError::UnsupportedParameter { kind: k, key: text } && k == kind
            && text@ == key
    } else {
        error matches ParameterAccessError::UnknownParameter(text) && text@ == key
    }
}

/// The error for a key that a controller of `kind` does not have.
pub fn unknown_parameter(kind: ControllerKind, key: &str) -> (error: ParameterAccessError)
    ensures
        reports_missing_key(error, kind, key@),
{
    if controller_parameter_key(key) {
        ParameterAccessError::UnsupportedParameter { kind, key: key.to_owned() }
    } else {
        ParameterAccessError::UnknownParameter(key.to_owned())
    }
}

/// The number pattern of a value given for `key`; refused when the value is not a number.
pub fn expect_number(key: &str, value: InstrumentValue) -> (result: Result<u64, ParameterAccessError>)
    ensures
        match value {
            InstrumentValue::Number(bits) => result == Ok::<u64, ParameterAccessError>(bits),
            other => result matches Err(ParameterAccessError::TypeMismatch { key: text, expected, actual })
                && text@ == key@ && expected == ParameterValueType::Number && actual == type_of_value(
                other,
            ),
        },
{
    match value {
        InstrumentValue::Number(bits) => Ok(bits),
        other => Err(
            ParameterAccessError::TypeMismatch {
                key: key.to_owned(),
                expected: ParameterValueType::Number,
                actual: instrument_value_type(other),
            },
        ),
    }
}

} // verus!
