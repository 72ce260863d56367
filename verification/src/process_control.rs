//! Closed-loop control: the kinds, operations and diagnostics of controllers, the parameters of
//! reference sources, PID gains and output limits, and the validation rules and error
//! descriptions around them.

pub mod control_loop;
pub mod controller;
pub mod diagnostic;
pub mod furnace;
pub mod new_loop;
pub mod on_off;
pub mod output_target;
pub mod pid;
pub mod reference;
pub mod service;

pub use control_loop::{ControlLoopDefinitionError, ControlLoopReferenceError, ControlLoopState};
pub use controller::{
    ControllerDiagnosticError, ControllerKind, ControllerOperation, ControllerOperationError,
    ParameterAccessError,
};
pub use furnace::FurnaceParameter;
pub use diagnostic::ControllerDiagnostic;
pub use new_loop::{NewController, NewControllerError};
pub use on_off::OnOffControllerError;
pub use output_target::ControlOutputTargetError;
pub use pid::{PidGains, PidGainsError, PidOutputLimits, PidOutputLimitsError};
pub use reference::{
    ReferenceKind, ReferenceParameter, ReferenceParameterError, ReferenceSourceError,
    ReferenceSourceParameter,
};
pub use service::{AddPidLoopError, ProcessControlServiceDisconnected, SetPidLoopSetpointError};
