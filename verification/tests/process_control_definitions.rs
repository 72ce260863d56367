use daqlab::instrument::{InstrumentValue, ParameterAccess, ParameterRange, ParameterValueType};
use daqlab::process_control::furnace::{
    check_furnace_read, furnace_parameter_descriptors, resolve_furnace_updates,
};
use daqlab::process_control::reference::{changes_ramp_start, check_read, resolve_updates};
use daqlab::process_control::control_loop::{
    loop_setpoint_descriptor, managed_by_reference, managed_update, normalize_name,
};
use daqlab::process_control::output_target::validate_numeric_output;
use daqlab::process_control::{
    AddPidLoopError, ControlLoopDefinitionError, ControlLoopReferenceError, ControlLoopState,
    ControlOutputTargetError, ControllerDiagnostic, ControllerDiagnosticError, ControllerKind,
    ControllerOperation, ControllerOperationError, FurnaceParameter, NewController,
    ParameterAccessError, OnOffControllerError, PidGains, PidGainsError,
    PidOutputLimits, PidOutputLimitsError, ProcessControlServiceDisconnected, ReferenceKind,
    ReferenceParameter, ReferenceParameterError, ReferenceSourceError, ReferenceSourceParameter,
    SetPidLoopSetpointError,
};

fn bits(value: f64) -> u64 {
    value.to_bits()
}

#[test]
fn finds_controller_diagnostic_by_key() {
    assert_eq!(ControllerDiagnostic::from_key("setpoint"), Some(ControllerDiagnostic::Setpoint));
    assert_eq!(
        ControllerDiagnostic::from_key("proportional"),
        Some(ControllerDiagnostic::Proportional)
    );
    assert_eq!(ControllerDiagnostic::from_key("integral"), Some(ControllerDiagnostic::Integral));
    assert_eq!(
        ControllerDiagnostic::from_key("derivative"),
        Some(ControllerDiagnostic::Derivative)
    );
    assert_eq!(ControllerDiagnostic::from_key("output"), Some(ControllerDiagnostic::Output));
    assert_eq!(
        ControllerDiagnostic::from_key("unconstrained_output"),
        Some(ControllerDiagnostic::UnconstrainedOutput)
    );
    assert_eq!(ControllerDiagnostic::from_key("missing"), None);
}

#[test]
fn diagnostic_keys_round_trip() {
    for diagnostic in ControllerDiagnostic::all() {
        assert_eq!(ControllerDiagnostic::from_key(diagnostic.key()), Some(diagnostic));
        assert_eq!(diagnostic.to_string(), diagnostic.key());
    }
}

#[test]
fn describes_output_target_errors() {
    assert_eq!(
        ControlOutputTargetError::ReadOnlyParameter("temperature".to_owned()).to_string(),
        "Output parameter 'temperature' is read-only",
    );

    assert_eq!(
        ControlOutputTargetError::NonNumericParameter("enabled".to_owned()).to_string(),
        "Output parameter 'enabled' must be numeric",
    );

    assert_eq!(
        ControlOutputTargetError::InvalidScale.to_string(),
        "Metakon output scale must be finite and greater than zero",
    );
}

#[test]
fn validates_numeric_outputs() {
    assert_eq!(
        validate_numeric_output("power", ParameterAccess::ReadOnly, ParameterValueType::Number),
        Err(ControlOutputTargetError::ReadOnlyParameter("power".to_owned()))
    );
    assert_eq!(
        validate_numeric_output("enabled", ParameterAccess::ReadWrite, ParameterValueType::Boolean),
        Err(ControlOutputTargetError::NonNumericParameter("enabled".to_owned()))
    );
    assert!(validate_numeric_output("power", ParameterAccess::WriteOnly, ParameterValueType::Integer)
        .is_ok());
}

#[test]
fn describes_service_errors() {
    assert_eq!(AddPidLoopError::Disconnected.to_string(), "Process control service is disconnected");

    assert_eq!(
        ProcessControlServiceDisconnected.to_string(),
        "Process control service is disconnected",
    );

    assert_eq!(
        SetPidLoopSetpointError::Definition(ControlLoopDefinitionError::EmptyName).to_string(),
        "Control loop name cannot be empty"
    );
}

#[test]
fn creates_pid_gains() {
    let gains = PidGains::new(bits(2.0), bits(0.5), bits(1.5)).unwrap();

    assert_eq!(f64::from_bits(gains.proportional()), 2.0);
    assert_eq!(f64::from_bits(gains.integral()), 0.5);
    assert_eq!(f64::from_bits(gains.derivative()), 1.5);

    assert!(PidGains::new(bits(0.0), bits(0.0), bits(0.0)).is_ok());
}

#[test]
fn rejects_invalid_pid_gains() {
    let invalid_values = [-1.0, f64::NAN, f64::INFINITY, f64::NEG_INFINITY];

    for value in invalid_values {
        assert_eq!(
            PidGains::new(bits(value), bits(0.0), bits(0.0)),
            Err(PidGainsError::InvalidProportionalGain)
        );

        assert_eq!(
            PidGains::new(bits(0.0), bits(value), bits(0.0)),
            Err(PidGainsError::InvalidIntegralGain)
        );

        assert_eq!(
            PidGains::new(bits(0.0), bits(0.0), bits(value)),
            Err(PidGainsError::InvalidDerivativeGain)
        );
    }
}

#[test]
fn accepts_negative_zero_gain() {
    assert!(PidGains::new(bits(-0.0), bits(0.0), bits(0.0)).is_ok());
}

#[test]
fn validates_output_limits() {
    let limits = PidOutputLimits::new(bits(0.0), bits(100.0)).unwrap();

    assert_eq!(f64::from_bits(limits.minimum()), 0.0);
    assert_eq!(f64::from_bits(limits.maximum()), 100.0);

    assert_eq!(
        PidOutputLimits::new(bits(f64::NAN), bits(100.0)),
        Err(PidOutputLimitsError::InvalidMinimum)
    );

    assert_eq!(
        PidOutputLimits::new(bits(0.0), bits(f64::INFINITY)),
        Err(PidOutputLimitsError::InvalidMaximum)
    );

    assert_eq!(
        PidOutputLimits::new(bits(100.0), bits(100.0)),
        Err(PidOutputLimitsError::InvalidRange)
    );

    assert_eq!(
        PidOutputLimits::new(bits(101.0), bits(100.0)),
        Err(PidOutputLimitsError::InvalidRange)
    );

    assert_eq!(
        PidOutputLimits::new(bits(-0.0), bits(0.0)),
        Err(PidOutputLimitsError::InvalidRange)
    );

    let full = PidOutputLimits::full();
    assert_eq!(f64::from_bits(full.minimum()), -f64::MAX);
    assert_eq!(f64::from_bits(full.maximum()), f64::MAX);
}

#[test]
fn describes_pid_errors() {
    assert_eq!(
        PidGainsError::InvalidIntegralGain.to_string(),
        "PID integral gain must be finite and greater than or equal to zero"
    );
    assert_eq!(
        PidOutputLimitsError::InvalidRange.to_string(),
        "PID output minimum must be less than its maximum"
    );
}

#[test]
fn names_controller_kinds_and_operations() {
    assert_eq!(ControllerKind::Pid.as_str(), "pid");
    assert_eq!(ControllerKind::OnOff.as_str(), "on_off");
    assert_eq!(ControllerKind::Furnace.to_string(), "furnace");
    assert_eq!(ControllerOperation::ResetIntegral.as_str(), "reset_integral");
    assert_eq!(ControlLoopState::Running.as_str(), "running");
    assert_eq!(ControlLoopState::Paused.as_str(), "paused");
    assert_eq!(ControlLoopState::default(), ControlLoopState::Running);
    assert_eq!(ReferenceKind::Fixed.as_str(), "fixed");
    assert_eq!(ReferenceKind::Ramp.as_str(), "ramp");

    assert_eq!(
        ControllerOperationError::Unsupported {
            kind: ControllerKind::OnOff,
            operation: ControllerOperation::ResetIntegral,
        }
        .to_string(),
        "Controller type 'on_off' does not support operation 'reset_integral'"
    );
    assert_eq!(
        ControllerDiagnosticError::Unsupported {
            kind: ControllerKind::OnOff,
            diagnostic: ControllerDiagnostic::Integral,
        }
        .to_string(),
        "Controller type 'on_off' does not support diagnostic 'integral'"
    );
    assert_eq!(
        OnOffControllerError::NegativeHysteresis.to_string(),
        "On/off hysteresis must be non-negative"
    );
}

#[test]
fn describes_reference_parameters() {
    assert_eq!(ReferenceParameter::from_key("setpoint"), Some(ReferenceParameter::Setpoint));
    assert_eq!(ReferenceParameter::from_key("value"), None);
    let setpoint = ReferenceParameter::Setpoint.descriptor();
    assert_eq!(setpoint.key, "setpoint");
    assert_eq!(setpoint.access, ParameterAccess::ReadWrite);
    assert_eq!(
        setpoint.range,
        ParameterRange::Number { minimum: (-f64::MAX).to_bits(), maximum: f64::MAX.to_bits() }
    );

    for parameter in [
        ReferenceSourceParameter::Value,
        ReferenceSourceParameter::Start,
        ReferenceSourceParameter::Target,
        ReferenceSourceParameter::Rate,
    ] {
        assert_eq!(ReferenceSourceParameter::from_key(parameter.key()), Some(parameter));
        assert_eq!(parameter.descriptor().key, parameter.key());
    }
    assert_eq!(
        ReferenceSourceParameter::Rate.descriptor().range,
        ParameterRange::Number { minimum: 0.0_f64.to_bits(), maximum: f64::MAX.to_bits() }
    );
    assert_eq!(ReferenceSourceParameter::from_key("slope"), None);
}

#[test]
fn describes_reference_errors() {
    assert_eq!(
        ReferenceParameterError::UnknownParameter("slope".to_owned()).to_string(),
        "Unknown reference parameter 'slope'"
    );
    assert_eq!(
        ReferenceParameterError::UnsupportedParameter {
            kind: ReferenceKind::Fixed,
            parameter: ReferenceSourceParameter::Rate,
        }
        .to_string(),
        "Reference type 'fixed' does not support parameter 'rate'"
    );
    assert_eq!(
        ReferenceParameterError::TypeMismatch {
            parameter: ReferenceSourceParameter::Start,
            expected: ParameterValueType::Number,
            actual: ParameterValueType::Boolean,
        }
        .to_string(),
        "Reference parameter 'start' expects number, got boolean"
    );
    assert_eq!(
        ReferenceSourceError::NonPositiveRampRate.to_string(),
        "Ramp rate must be greater than zero"
    );
    assert_eq!(
        ControlLoopReferenceError::NotConfigured.to_string(),
        "Control loop has no reference source"
    );
    assert_eq!(
        ControlLoopReferenceError::Parameter(ReferenceParameterError::NotWritable(
            ReferenceSourceParameter::Value
        ))
        .to_string(),
        "Reference parameter 'value' is not writable"
    );
}

#[test]
fn normalizes_control_loop_names() {
    assert_eq!(normalize_name("  thermostat\t"), Ok("thermostat".to_owned()));
    assert_eq!(normalize_name(" \n "), Err(ControlLoopDefinitionError::EmptyName));
    assert_eq!(normalize_name(""), Err(ControlLoopDefinitionError::EmptyName));
    assert_eq!(
        normalize_name(" two words "),
        Err(ControlLoopDefinitionError::NameContainsWhitespace)
    );
    assert_eq!(normalize_name("\u{3000}loop\u{a0}"), Ok("loop".to_owned()));
    assert_eq!(
        ControlLoopDefinitionError::NameContainsWhitespace.to_string(),
        "Control loop name cannot contain whitespace"
    );
}

#[test]
fn resolves_reference_updates() {

    let updates = vec![
        ("target".to_owned(), InstrumentValue::Number(bits(100.0))),
        ("rate".to_owned(), InstrumentValue::Number(bits(2.5))),
    ];
    assert_eq!(
        resolve_updates(ReferenceKind::Ramp, &updates),
        Ok(vec![
            (ReferenceSourceParameter::Target, bits(100.0)),
            (ReferenceSourceParameter::Rate, bits(2.5)),
        ])
    );

    assert_eq!(
        resolve_updates(ReferenceKind::Fixed, &updates),
        Err(ReferenceParameterError::UnsupportedParameter {
            kind: ReferenceKind::Fixed,
            parameter: ReferenceSourceParameter::Target,
        })
    );

    let repeated = vec![
        ("value".to_owned(), InstrumentValue::Number(bits(1.0))),
        ("value".to_owned(), InstrumentValue::Number(bits(2.0))),
    ];
    assert_eq!(
        resolve_updates(ReferenceKind::Fixed, &repeated),
        Err(ReferenceParameterError::DuplicateParameter(ReferenceSourceParameter::Value))
    );

    let mistyped = vec![("value".to_owned(), InstrumentValue::Boolean(true))];
    assert_eq!(
        resolve_updates(ReferenceKind::Fixed, &mistyped),
        Err(ReferenceParameterError::TypeMismatch {
            parameter: ReferenceSourceParameter::Value,
            expected: ParameterValueType::Number,
            actual: ParameterValueType::Boolean,
        })
    );

    let unknown = vec![("slope".to_owned(), InstrumentValue::Number(bits(1.0)))];
    assert_eq!(
        resolve_updates(ReferenceKind::Ramp, &unknown),
        Err(ReferenceParameterError::UnknownParameter("slope".to_owned()))
    );

    assert_eq!(check_read(ReferenceKind::Ramp, "start"), Ok(ReferenceSourceParameter::Start));
    assert_eq!(
        check_read(ReferenceKind::Ramp, "value"),
        Err(ReferenceParameterError::UnsupportedParameter {
            kind: ReferenceKind::Ramp,
            parameter: ReferenceSourceParameter::Value,
        })
    );
}

#[test]
fn stores_generic_controller_request() {
    let request =
        NewController::new("thermostat", "temperature_filtered", 17_u64, ControllerKind::OnOff)
            .unwrap();

    assert_eq!(request.name(), "thermostat");
    assert_eq!(request.input_name(), "temperature_filtered");
    assert_eq!(request.output_target(), &17);
    assert_eq!(*request.controller(), ControllerKind::OnOff);

    let (name, input_name, output_target, controller) = request.into_parts();

    assert_eq!(name, "thermostat");
    assert_eq!(input_name, "temperature_filtered");
    assert_eq!(output_target, 17);
    assert_eq!(controller, ControllerKind::OnOff);
}

#[test]
fn rejects_empty_controller_name() {
    let error = NewController::new("", "temperature", (), ControllerKind::OnOff).unwrap_err();

    assert_eq!(error.to_string(), "Controller name cannot be empty");
}

#[test]
fn rejects_empty_input_name() {
    let error = NewController::new("thermostat", "", (), ControllerKind::OnOff).unwrap_err();

    assert_eq!(error.to_string(), "Controller input series name cannot be empty");
}

#[test]
fn rejects_whitespace_only_controller_names() {
    let error = NewController::new(" \t", "temperature", (), ControllerKind::Pid).unwrap_err();
    assert_eq!(error.to_string(), "Controller name cannot be empty");

    let error = NewController::new("heater", "\n ", (), ControllerKind::Pid).unwrap_err();
    assert_eq!(error.to_string(), "Controller input series name cannot be empty");

    let request = NewController::new(" heater ", " temperature", 3_u8, ControllerKind::Pid).unwrap();
    assert_eq!(request.name(), " heater ");
    assert_eq!(request.input_name(), " temperature");
}

#[test]
fn furnace_parameter_keys_round_trip() {
    let all = FurnaceParameter::all();
    assert_eq!(all.len(), 10);
    for parameter in all {
        assert_eq!(FurnaceParameter::from_key(parameter.key()), Some(parameter));
    }
    assert_eq!(FurnaceParameter::from_key("kd"), None);
}

#[test]
fn lists_furnace_parameters_without_setpoint() {
    let descriptors = furnace_parameter_descriptors();
    let keys: Vec<&str> = descriptors.iter().map(|descriptor| descriptor.key).collect();
    assert_eq!(
        keys,
        vec![
            "kp",
            "ki",
            "output_min",
            "output_max",
            "ambient_temperature",
            "max_power",
            "heater_lag",
            "linear_loss",
            "radiation_loss_1000c",
        ],
    );
    let ambient = FurnaceParameter::AmbientTemperature.descriptor();
    assert_eq!(ambient.name, "ambient temperature");
    assert_eq!(ambient.access, ParameterAccess::ReadWrite);
    assert_eq!(ambient.value_type, ParameterValueType::Number);
    assert_eq!(
        ambient.range,
        ParameterRange::Number { minimum: bits(-273.15), maximum: bits(f64::MAX) },
    );
    let radiation = FurnaceParameter::RadiationLossAt1000C.descriptor();
    assert_eq!(radiation.name, "radiation loss at 1000 °C");
    assert_eq!(radiation.range, ParameterRange::Number { minimum: bits(0.0), maximum: bits(f64::MAX) });
    let setpoint = FurnaceParameter::Setpoint.descriptor();
    assert_eq!(setpoint.range, ParameterRange::Number { minimum: bits(-f64::MAX), maximum: bits(f64::MAX) });
}

#[test]
fn resolves_furnace_updates_in_order() {
    let updates = vec![
        ("max_power".to_owned(), InstrumentValue::Number(bits(2500.0))),
        ("setpoint".to_owned(), InstrumentValue::Number(bits(500.0))),
    ];
    assert_eq!(
        resolve_furnace_updates(&updates),
        Ok(vec![
            (FurnaceParameter::MaximumPower, bits(2500.0)),
            (FurnaceParameter::Setpoint, bits(500.0)),
        ]),
    );
    assert_eq!(resolve_furnace_updates(&[]), Ok(vec![]));
}

#[test]
fn refuses_furnace_updates_by_first_problem() {
    let unknown = vec![
        ("kp".to_owned(), InstrumentValue::Number(bits(1.0))),
        ("banana".to_owned(), InstrumentValue::Number(bits(1.0))),
    ];
    let error = resolve_furnace_updates(&unknown).unwrap_err();
    assert_eq!(error, ParameterAccessError::UnknownParameter("banana".to_owned()));
    assert_eq!(error.to_string(), "Unknown controller parameter 'banana'");

    let other_kind = vec![("kd".to_owned(), InstrumentValue::Number(bits(1.0)))];
    let error = resolve_furnace_updates(&other_kind).unwrap_err();
    assert_eq!(
        error,
        ParameterAccessError::UnsupportedParameter {
            kind: ControllerKind::Furnace,
            key: "kd".to_owned(),
        },
    );
    assert_eq!(error.to_string(), "Controller type 'furnace' does not support parameter 'kd'");

    let duplicate = vec![
        ("ki".to_owned(), InstrumentValue::Number(bits(1.0))),
        ("ki".to_owned(), InstrumentValue::Number(bits(2.0))),
    ];
    let error = resolve_furnace_updates(&duplicate).unwrap_err();
    assert_eq!(error, ParameterAccessError::DuplicateParameter("ki".to_owned()));
    assert_eq!(error.to_string(), "Controller parameter 'ki' was configured more than once");

    let mismatch = vec![("heater_lag".to_owned(), InstrumentValue::Boolean(true))];
    let error = resolve_furnace_updates(&mismatch).unwrap_err();
    assert_eq!(
        error,
        ParameterAccessError::TypeMismatch {
            key: "heater_lag".to_owned(),
            expected: ParameterValueType::Number,
            actual: ParameterValueType::Boolean,
        },
    );
    assert_eq!(error.to_string(), "Controller parameter 'heater_lag' expects number, received boolean");
}

#[test]
fn checks_furnace_reads() {
    assert_eq!(check_furnace_read("linear_loss"), Ok(FurnaceParameter::LinearLoss));
    assert_eq!(
        check_furnace_read("hysteresis"),
        Err(ParameterAccessError::UnsupportedParameter {
            kind: ControllerKind::Furnace,
            key: "hysteresis".to_owned(),
        }),
    );
    assert_eq!(
        check_furnace_read("missing"),
        Err(ParameterAccessError::UnknownParameter("missing".to_owned())),
    );
    assert_eq!(
        ParameterAccessError::NotReadable("kp".to_owned()).to_string(),
        "Controller parameter 'kp' is not readable",
    );
    assert_eq!(
        ParameterAccessError::NotWritable("kp".to_owned()).to_string(),
        "Controller parameter 'kp' is not writable",
    );
}

#[test]
fn detects_updates_of_ramp_start() {
    let number = InstrumentValue::Number(bits(1.0));
    assert!(changes_ramp_start(&[("target".to_owned(), number), ("start".to_owned(), number)]));
    assert!(!changes_ramp_start(&[("target".to_owned(), number), ("rate".to_owned(), number)]));
    assert!(!changes_ramp_start(&[]));
    assert!(!changes_ramp_start(&[("starting".to_owned(), number)]));
}

#[test]
fn lists_diagnostics_by_controller_kind() {
    assert_eq!(ControllerKind::Pid.diagnostics(), ControllerDiagnostic::all().to_vec());
    assert_eq!(
        ControllerKind::OnOff.diagnostics(),
        vec![ControllerDiagnostic::Setpoint, ControllerDiagnostic::Output],
    );
    assert_eq!(
        ControllerKind::Furnace.diagnostics(),
        vec![
            ControllerDiagnostic::Setpoint,
            ControllerDiagnostic::Proportional,
            ControllerDiagnostic::Integral,
            ControllerDiagnostic::Output,
            ControllerDiagnostic::UnconstrainedOutput,
        ],
    );
}

#[test]
fn validates_diagnostics_and_operations_by_kind() {
    assert_eq!(ControllerKind::Pid.validate_diagnostic(ControllerDiagnostic::Derivative), Ok(()));
    let error = ControllerKind::Furnace
        .validate_diagnostic(ControllerDiagnostic::Derivative)
        .unwrap_err();
    assert_eq!(error.to_string(), "Controller type 'furnace' does not support diagnostic 'derivative'");
    let error = ControllerKind::OnOff
        .validate_diagnostic(ControllerDiagnostic::Proportional)
        .unwrap_err();
    assert_eq!(
        error,
        ControllerDiagnosticError::Unsupported {
            kind: ControllerKind::OnOff,
            diagnostic: ControllerDiagnostic::Proportional,
        },
    );

    assert_eq!(ControllerKind::Pid.validate_operation(ControllerOperation::ResetIntegral), Ok(()));
    assert_eq!(ControllerKind::Furnace.validate_operation(ControllerOperation::ResetIntegral), Ok(()));
    let error = ControllerKind::OnOff.validate_operation(ControllerOperation::ResetIntegral).unwrap_err();
    assert_eq!(error.to_string(), "Controller type 'on_off' does not support operation 'reset_integral'");
}

#[test]
fn pauses_and_resumes_loop_state() {
    assert!(ControlLoopState::Running.is_running());
    assert!(!ControlLoopState::Paused.is_running());
    assert_eq!(ControlLoopState::Running.paused(), ControlLoopState::Paused);
    assert_eq!(ControlLoopState::Paused.resumed(), (ControlLoopState::Running, true));
    assert_eq!(ControlLoopState::Running.resumed(), (ControlLoopState::Running, false));
}

#[test]
fn reference_manages_loop_setpoint() {
    let free = loop_setpoint_descriptor(false);
    assert_eq!(free.key, "setpoint");
    assert_eq!(free.access, ParameterAccess::ReadWrite);
    let managed = loop_setpoint_descriptor(true);
    assert_eq!(managed.access, ParameterAccess::ReadOnly);

    assert_eq!(managed_by_reference(true, "setpoint"), Some(ReferenceParameter::Setpoint));
    assert_eq!(managed_by_reference(false, "setpoint"), None);
    assert_eq!(managed_by_reference(true, "kp"), None);

    let number = InstrumentValue::Number(bits(1.0));
    let mixed = [("kp".to_owned(), number), ("setpoint".to_owned(), number)];
    assert_eq!(managed_update(true, &mixed), Some(ReferenceParameter::Setpoint));
    assert_eq!(managed_update(false, &mixed), None);
    assert_eq!(managed_update(true, &[("kp".to_owned(), number)]), None);
}
