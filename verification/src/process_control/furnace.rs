//! The parameters of the model-based furnace controller: their keys, metadata and the resolution
//! of keyed updates, before any value is applied.
use vstd::prelude::*;

use crate::instrument::{
    type_of_value, InstrumentValue, ParameterAccess, ParameterDescriptor, ParameterRange,
    ParameterValueType,
};
use crate::process_control::controller::{
    expect_number, reports_missing_key, unknown_parameter, ControllerKind, ParameterAccessError,
};
use crate::process_control::pid::{MAX_BITS, MIN_BITS, ZERO_BITS};
use crate::process_control::reference::update_views;
use crate::text::str_eq;

verus! {

/// The binary64 pattern of -273.15, the lowest ambient temperature in degrees Celsius.
pub const ABSOLUTE_ZERO_BITS: u64 = 0xC071_1266_6666_6666;

#[derive(Clone, Copy, Debug, PartialEq, Eq, Structural)]
pub enum FurnaceParameter {
    Setpoint,
    ProportionalGain,
    IntegralGain,
    OutputMinimum,
    OutputMaximum,
    AmbientTemperature,
    MaximumPower,
    HeaterLag,
    LinearLoss,
    RadiationLossAt1000C,
}

/// Every furnace parameter, in the order the controller lists them.
pub open spec fn all_furnace_parameters() -> Seq<FurnaceParameter> {
    seq![
        FurnaceParameter::Setpoint,
        FurnaceParameter::ProportionalGain,
        FurnaceParameter::IntegralGain,
        FurnaceParameter::OutputMinimum,
        FurnaceParameter::OutputMaximum,
        FurnaceParameter::AmbientTemperature,
        FurnaceParameter::MaximumPower,
        FurnaceParameter::HeaterLag,
        FurnaceParameter::LinearLoss,
        FurnaceParameter::RadiationLossAt1000C,
    ]
}

/// The key of a furnace parameter.
pub open spec fn furnace_parameter_key(parameter: FurnaceParameter) -> Seq<char> {
    match parameter {
        FurnaceParameter::Setpoint => "setpoint"@,
        FurnaceParameter::ProportionalGain => "kp"@,
        FurnaceParameter::IntegralGain => "ki"@,
        FurnaceParameter::OutputMinimum => "output_min"@,
        FurnaceParameter::OutputMaximum => "output_max"@,
        FurnaceParameter::AmbientTemperature => "ambient_temperature"@,
        FurnaceParameter::MaximumPower => "max_power"@,
        FurnaceParameter::HeaterLag => "heater_lag"@,
        FurnaceParameter::LinearLoss => "linear_loss"@,
        FurnaceParameter::RadiationLossAt1000C => "radiation_loss_1000c"@,
    }
}

/// The display name of a furnace parameter.
pub open spec fn furnace_parameter_name(parameter: FurnaceParameter) -> Seq<char> {
    match parameter {
        FurnaceParameter::Setpoint => "setpoint"@,
        FurnaceParameter::ProportionalGain => "proportional gain"@,
        FurnaceParameter::IntegralGain => "integral gain"@,
        FurnaceParameter::OutputMinimum => "output minimum"@,
        FurnaceParameter::OutputMaximum => "output maximum"@,
        FurnaceParameter::AmbientTemperature => "ambient temperature"@,
        FurnaceParameter::MaximumPower => "maximum furnace power"@,
        FurnaceParameter::HeaterLag => "heater lag"@,
        FurnaceParameter::LinearLoss => "linear heat loss"@,
        FurnaceParameter::RadiationLossAt1000C => "radiation loss at 1000 °C"@,
    }
}

/// The lowest value of a furnace parameter, as a binary64 pattern: gains, power, lag and losses
/// are not negative, the ambient temperature is not below absolute zero, the rest is unbounded.
pub open spec fn furnace_parameter_minimum(parameter: FurnaceParameter) -> u64 {
    match parameter {
        FurnaceParameter::Setpoint | FurnaceParameter::OutputMinimum
        | FurnaceParameter::OutputMaximum => MIN_BITS,
        FurnaceParameter::AmbientTemperature => ABSOLUTE_ZERO_BITS,
        _ => ZERO_BITS,
    }
}

/// The metadata of a furnace parameter: readable and writable, a number from its minimum to the
/// largest finite value.
pub open spec fn furnace_parameter_descriptor(parameter: FurnaceParameter) -> (ParameterAccess, ParameterValueType, ParameterRange) {
    (
        ParameterAccess::ReadWrite,
        ParameterValueType::Number,
        ParameterRange::Number { minimum: furnace_parameter_minimum(parameter), maximum: MAX_BITS },
    )
}

/// The furnace parameter a key names, if any.
pub open spec fn furnace_parameter_with_key(key: Seq<char>) -> Option<FurnaceParameter> {
    if key == "setpoint"@ {
        Some(FurnaceParameter::Setpoint)
    } else if key == "kp"@ {
        Some(FurnaceParameter::ProportionalGain)
    } else if key == "ki"@ {
        Some(FurnaceParameter::IntegralGain)
    } else if key == "output_min"@ {
        Some(FurnaceParameter::OutputMinimum)
    } else if key == "output_max"@ {
        Some(FurnaceParameter::OutputMaximum)
    } else if key == "ambient_temperature"@ {
        Some(FurnaceParameter::AmbientTemperature)
    } else if key == "max_power"@ {
        Some(FurnaceParameter::MaximumPower)
    } else if key == "heater_lag"@ {
        Some(FurnaceParameter::HeaterLag)
    } else if key == "linear_loss"@ {
        Some(FurnaceParameter::LinearLoss)
    } else if key == "radiation_loss_1000c"@ {
        Some(FurnaceParameter::RadiationLossAt1000C)
    } else {
        None
    }
}

impl FurnaceParameter {
    /// Every furnace parameter, in order.
    pub fn all() -> (parameters: Vec<FurnaceParameter>)
        ensures
            parameters@ == all_furnace_parameters(),
    {
        let parameters = vec![
            FurnaceParameter::Setpoint,
            FurnaceParameter::ProportionalGain,
            FurnaceParameter::IntegralGain,
            FurnaceParameter::OutputMinimum,
            FurnaceParameter::OutputMaximum,
            FurnaceParameter::AmbientTemperature,
            FurnaceParameter::MaximumPower,
            FurnaceParameter::HeaterLag,
            FurnaceParameter::LinearLoss,
            FurnaceParameter::RadiationLossAt1000C,
        ];
        assert(parameters@ =~= all_furnace_parameters());
        parameters
    }

    pub fn key(self) -> (key: &'static str)
        ensures
            key@ == furnace_parameter_key(self),
    {
        match self {
            FurnaceParameter::Setpoint => "setpoint",
            FurnaceParameter::ProportionalGain => "kp",
            FurnaceParameter::IntegralGain => "ki",
            FurnaceParameter::OutputMinimum => "output_min",
            FurnaceParameter::OutputMaximum => "output_max",
            FurnaceParameter::AmbientTemperature => "ambient_temperature",
            FurnaceParameter::MaximumPower => "max_power",
            FurnaceParameter::HeaterLag => "heater_lag",
            FurnaceParameter::LinearLoss => "linear_loss",
            FurnaceParameter::RadiationLossAt1000C => "radiation_loss_1000c",
        }
    }

    pub fn from_key(key: &str) -> (parameter: Option<Self>)
        ensures
            parameter == furnace_parameter_with_key(key@),
    {
        if str_eq(key, "setpoint") {
            Some(FurnaceParameter::Setpoint)
        } else if str_eq(key, "kp") {
            Some(FurnaceParameter::ProportionalGain)
        } else if str_eq(key, "ki") {
            Some(FurnaceParameter::IntegralGain)
        } else if str_eq(key, "output_min") {
            Some(FurnaceParameter::OutputMinimum)
        } else if str_eq(key, "output_max") {
            Some(FurnaceParameter::OutputMaximum)
        } else if str_eq(key, "ambient_temperature") {
            Some(FurnaceParameter::AmbientTemperature)
        } else if str_eq(key, "max_power") {
            Some(FurnaceParameter::MaximumPower)
        } else if str_eq(key, "heater_lag") {
            Some(FurnaceParameter::HeaterLag)
        } else if str_eq(key, "linear_loss") {
            Some(FurnaceParameter::LinearLoss)
        } else if str_eq(key, "radiation_loss_1000c") {
            Some(FurnaceParameter::RadiationLossAt1000C)
        } else {
            None
        }
    }

    /// The parameter's metadata (see `furnace_parameter_descriptor`).
    pub fn descriptor(self) -> (descriptor: ParameterDescriptor)
        ensures
            descriptor.key@ == furnace_parameter_key(self),
            descriptor.name@ == furnace_parameter_name(self),
            (descriptor.access, descriptor.value_type, descriptor.range)
                == furnace_parameter_descriptor(self),
    {
        let (key, name, minimum) = match self {
            FurnaceParameter::Setpoint => ("setpoint", "setpoint", MIN_BITS),
            FurnaceParameter::ProportionalGain => ("kp", "proportional gain", ZERO_BITS),
            FurnaceParameter::IntegralGain => ("ki", "integral gain", ZERO_BITS),
            FurnaceParameter::OutputMinimum => ("output_min", "output minimum", MIN_BITS),
            FurnaceParameter::OutputMaximum => ("output_max", "output maximum", MIN_BITS),
            FurnaceParameter::AmbientTemperature => (
                "ambient_temperature",
                "ambient temperature",
                ABSOLUTE_ZERO_BITS,
            ),
            FurnaceParameter::MaximumPower => ("max_power", "maximum furnace power", ZERO_BITS),
            FurnaceParameter::HeaterLag => ("heater_lag", "heater lag", ZERO_BITS),
            FurnaceParameter::LinearLoss => ("linear_loss", "linear heat loss", ZERO_BITS),
            FurnaceParameter::RadiationLossAt1000C => (
                "radiation_loss_1000c",
                "radiation loss at 1000 °C",
                ZERO_BITS,
            ),
        };
        ParameterDescriptor {
            key,
            name,
            access: ParameterAccess::ReadWrite,
            value_type: ParameterValueType::Number,
            range: ParameterRange::Number { minimum, maximum: MAX_BITS },
        }
    }
}

/// Every furnace parameter's key names that parameter again.
pub proof fn lemma_furnace_parameter_key_round_trip(parameter: FurnaceParameter)
    ensures
        furnace_parameter_with_key(furnace_parameter_key(parameter)) == Some(parameter),
{
    reveal_strlit("setpoint");
    reveal_strlit("kp");
    reveal_strlit("ki");
    reveal_strlit("output_min");
    reveal_strlit("output_max");
    reveal_strlit("ambient_temperature");
    reveal_strlit("max_power");
    reveal_strlit("heater_lag");
    reveal_strlit("linear_loss");
    reveal_strlit("radiation_loss_1000c");
    assert("kp"@[1] != "ki"@[1]);
    assert("output_min"@[8] != "output_max"@[8]);
    assert("output_min"@[0] != "heater_lag"@[0]);
    assert("output_max"@[0] != "heater_lag"@[0]);
    assert("setpoint"@.len() == 8);
    assert("kp"@.len() == 2);
    assert("ki"@.len() == 2);
    assert("output_min"@.len() == 10);
    assert("output_max"@.len() == 10);
    assert("ambient_temperature"@.len() == 19);
    assert("max_power"@.len() == 9);
    assert("heater_lag"@.len() == 10);
    assert("linear_loss"@.len() == 11);
    assert("radiation_loss_1000c"@.len() == 20);
}

/// The metadata the furnace controller lists: every parameter but the setpoint, in order.
pub fn furnace_parameter_descriptors() -> (descriptors: Vec<ParameterDescriptor>)
    ensures
        descriptors@.len() == all_furnace_parameters().len() - 1,
        forall|k: int|
            0 <= k < descriptors@.len() ==> {
                let parameter = #[trigger] all_furnace_parameters()[k + 1];
                &&& descriptors@[k].key@ == furnace_parameter_key(parameter)
                &&& descriptors@[k].name@ == furnace_parameter_name(parameter)
                &&& (descriptors@[k].access, descriptors@[k].value_type, descriptors@[k].range)
                    == furnace_parameter_descriptor(parameter)
            },
{
    let all = FurnaceParameter::all();
    let mut descriptors: Vec<ParameterDescriptor> = Vec::new();
    let mut index: usize = 0;
    while index < all.len()
        invariant
            all@ == all_furnace_parameters(),
            index <= all@.len(),
            index > 0 ==> descriptors@.len() == index - 1,
            index == 0 ==> descriptors@.len() == 0,
            forall|k: int|
                0 <= k < descriptors@.len() ==> {
                    let parameter = #[trigger] all_furnace_parameters()[k + 1];
                    &&& descriptors@[k].key@ == furnace_parameter_key(parameter)
                    &&& descriptors@[k].name@ == furnace_parameter_name(parameter)
                    &&& (descriptors@[k].access, descriptors@[k].value_type, descriptors@[k].range)
                        == furnace_parameter_descriptor(parameter)
                },
        decreases all.len() - index,
    {
        let parameter = all[index];
        if parameter != FurnaceParameter::Setpoint {
            assert(index > 0);
            descriptors.push(parameter.descriptor());
        } else {
            assert(index == 0);
        }
        index += 1;
    }
    descriptors
}

/// The parameter a read of `key` addresses, or why it is refused.
pub fn check_furnace_read(key: &str) -> (result: Result<FurnaceParameter, ParameterAccessError>)
    ensures
        match furnace_parameter_with_key(key@) {
            None => result matches Err(error) && reports_missing_key(error, ControllerKind::Furnace, key@),
            Some(parameter) => result == Ok::<FurnaceParameter, ParameterAccessError>(parameter),
        },
{
    let parameter = match FurnaceParameter::from_key(key) {
        Some(parameter) => parameter,
        None => return Err(unknown_parameter(ControllerKind::Furnace, key)),
    };
    if !parameter.descriptor().access.readable() {
        return Err(ParameterAccessError::NotReadable(key.to_owned()));
    }
    Ok(parameter)
}

/// What is wrong with one update of a furnace parameter.
#[derive(Clone, Copy, Debug, PartialEq, Eq)]
pub enum FurnaceUpdateProblem {
    Missing,
    Duplicate,
    TypeMismatch(ParameterValueType),
}

/// What is wrong with an update of `key` to `value` after updates of the `earlier` parameters:
/// the key must name a furnace parameter not updated before, and the value must be a number.
pub open spec fn furnace_update_problem(key: Seq<char>, value: InstrumentValue, earlier: Seq<FurnaceParameter>) -> Option<FurnaceUpdateProblem> {
    match furnace_parameter_with_key(key) {
        None => Some(FurnaceUpdateProblem::Missing),
        Some(parameter) => if earlier.contains(parameter) {
            Some(FurnaceUpdateProblem::Duplicate)
        } else {
            match value {
                InstrumentValue::Number(_) => None,
                other => Some(FurnaceUpdateProblem::TypeMismatch(type_of_value(other))),
            }
        },
    }
}

/// The updates resolved to parameters and number patterns, in order; or the position of the first
/// refused update and why.
pub open spec fn resolved_furnace_updates(updates: Seq<(Seq<char>, InstrumentValue)>) -> Result<Seq<(FurnaceParameter, u64)>, (int, FurnaceUpdateProblem)>
    decreases updates.len(),
{
    if updates.len() == 0 {
        Ok(Seq::empty())
    } else {
        match resolved_furnace_updates(updates.drop_last()) {
            Err(refusal) => Err(refusal),
            Ok(earlier) => {
                let (key, value) = updates.last();
                match furnace_update_problem(key, value, earlier.map_values(|entry: (FurnaceParameter, u64)| entry.0)) {
                    Some(problem) => Err((updates.len() - 1, problem)),
                    None => Ok(earlier.push((furnace_parameter_with_key(key).unwrap(), value->Number_0))),
                }
            },
        }
    }
}

/// Whether an error reports the problem with an update of `key`.
pub open spec fn reports_furnace_problem(error: ParameterAccessError, key: Seq<char>, problem: FurnaceUpdateProblem) -> bool {
    match problem {
        FurnaceUpdateProblem::Missing => reports_missing_key(error, ControllerKind::Furnace, key),
        FurnaceUpdateProblem::Duplicate => error matches ParameterAccessError::DuplicateParameter(
            text,
        ) && text@ == key,
        FurnaceUpdateProblem::TypeMismatch(actual) => error matches ParameterAccessError::TypeMismatch {
            key: text,
            expected,
            actual: found,
        } && text@ == key && expected == ParameterValueType::Number && found == actual,
    }
}

/// Whether a parameter is among those already resolved.
fn furnace_already_resolved(resolved: &Vec<(FurnaceParameter, u64)>, parameter: FurnaceParameter) -> (found: bool)
    ensures
        found == resolved@.map_values(|entry: (FurnaceParameter, u64)| entry.0).contains(parameter),
{
    let ghost earlier = resolved@.map_values(|entry: (FurnaceParameter, u64)| entry.0);
    let mut position: usize = 0;
    while position < resolved.len()
        invariant
            position <= resolved@.len(),
            earlier == resolved@.map_values(|entry: (FurnaceParameter, u64)| entry.0),
            forall|k: int| 0 <= k < position ==> earlier[k] != parameter,
        decreases resolved.len() - position,
    {
        if resolved[position].0 == parameter {
            assert(earlier[position as int] == parameter);
            return true;
        }
        position += 1;
    }
    false
}

/// A refusal among the first `count` updates is the refusal of the whole list.
proof fn lemma_furnace_prefix_error(updates: Seq<(Seq<char>, InstrumentValue)>, count: int)
    requires
        0 <= count <= updates.len(),
        resolved_furnace_updates(updates.take(count)) is Err,
    ensures
        resolved_furnace_updates(updates) == resolved_furnace_updates(updates.take(count)),
    decreases updates.len() - count,
{
    if count < updates.len() {
        assert(updates.take(count + 1).drop_last() =~= updates.take(count));
        lemma_furnace_prefix_error(updates, count + 1);
    } else {
        assert(updates.take(count) =~= updates);
    }
}

/// Resolves keyed updates of a furnace controller (see `resolved_furnace_updates`); the first
/// refused update is reported, and nothing is applied here.
pub fn resolve_furnace_updates(updates: &[(String, InstrumentValue)]) -> (result: Result<Vec<(FurnaceParameter, u64)>, ParameterAccessError>)
    ensures
        match resolved_furnace_updates(update_views(updates@)) {
            Ok(resolved) => result matches Ok(list) && list@ == resolved,
            Err((index, problem)) => result matches Err(error) && reports_furnace_problem(
                error,
                update_views(updates@)[index].0,
                problem,
            ),
        },
{
    let ghost views = update_views(updates@);
    let mut resolved: Vec<(FurnaceParameter, u64)> = Vec::new();
    let mut index: usize = 0;
    while index < updates.len()
        invariant
            index <= updates@.len(),
            views == update_views(updates@),
            resolved_furnace_updates(views.take(index as int)) == Ok::<Seq<(FurnaceParameter, u64)>, (int, FurnaceUpdateProblem)>(resolved@),
        decreases updates.len() - index,
    {
        let key = updates[index].0.as_str();
        let value = updates[index].1;
        let ghost prefix = views.take(index + 1);
        assert(prefix.drop_last() =~= views.take(index as int));
        assert(prefix.last() == (key@, value));
        let ghost earlier = resolved@.map_values(|entry: (FurnaceParameter, u64)| entry.0);
        let parameter = match FurnaceParameter::from_key(key) {
            Some(parameter) => parameter,
            None => {
                proof {
                    lemma_furnace_prefix_error(views, index + 1);
                }
                return Err(unknown_parameter(ControllerKind::Furnace, key));
            },
        };
        if !parameter.descriptor().access.writable() {
            return Err(ParameterAccessError::NotWritable(key.to_owned()));
        }
        if furnace_already_resolved(&resolved, parameter) {
            proof {
                lemma_furnace_prefix_error(views, index + 1);
            }
            return Err(ParameterAccessError::DuplicateParameter(key.to_owned()));
        }
        assert(!earlier.contains(parameter));
        let bits = match expect_number(key, value) {
            Ok(bits) => bits,
            Err(error) => {
                proof {
                    lemma_furnace_prefix_error(views, index + 1);
                }
                return Err(error);
            },
        };
        resolved.push((parameter, bits));
        index += 1;
    }
    assert(views.take(updates@.len() as int) =~= views);
    Ok(resolved)
}

} // verus!
