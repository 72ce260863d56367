//! Errors of the process-control service's requests.
use vstd::prelude::*;

use crate::process_control::control_loop::{loop_definition_error_text, ControlLoopDefinitionError};

verus! {

/// The description of a disconnected service.
pub open spec fn disconnected_text() -> Seq<char> {
    "Process control service is disconnected"@
}

#[derive(Clone, Copy, Debug, PartialEq, Eq)]
pub enum AddPidLoopError {
    Definition(ControlLoopDefinitionError),
    Disconnected,
}

impl AddPidLoopError {
    pub fn to_string(&self) -> (text: String)
        ensures
            text@ == match *self {
                AddPidLoopError::Definition(error) => loop_definition_error_text(error),
                AddPidLoopError::Disconnected => disconnected_text(),
            },
    {
        match self {
            AddPidLoopError::Definition(error) => error.to_string(),
            AddPidLoopError::Disconnected => "Process control service is disconnected".to_owned(),
        }
    }
}

#[derive(Clone, Copy, Debug, PartialEq, Eq)]
pub enum SetPidLoopSetpointError {
    Definition(ControlLoopDefinitionError),
    Disconnected,
}

impl SetPidLoopSetpointError {
    pub fn to_string(&self) -> (text: String)
        ensures
            text@ == match *self {
                SetPidLoopSetpointError::Definition(error) => loop_definition_error_text(error),
                SetPidLoopSetpointError::Disconnected => disconnected_text(),
            },
    {
        match self {
            SetPidLoopSetpointError::Definition(error) => error.to_string(),
            SetPidLoopSetpointError::Disconnected => "Process control service is disconnected".to_owned(),
        }
    }
}

#[derive(Clone, Copy, Debug, PartialEq, Eq)]
pub struct ProcessControlServiceDisconnected;

impl ProcessControlServiceDisconnected {
    pub fn to_string(&self) -> (text: String)
        ensures
            text@ == disconnected_text(),
    {
        "Process control service is disconnected".to_owned()
    }
}

} // verus!
