//! Errors of on/off (hysteresis) controllers.
use vstd::prelude::*;

verus! {

#[derive(Clone, Copy, Debug, PartialEq, Eq)]
pub enum OnOffControllerError {
    NonFiniteTimestamp,
    NonFiniteSetpoint,
    NonFiniteHysteresis,
    NegativeHysteresis,
    NonFiniteMeasurement,
    NonFiniteOutputOff,
    NonFiniteOutputOn,
    NonFiniteThreshold,
}

/// The description of an on/off controller error.
pub open spec fn on_off_error_text(error: OnOffControllerError) -> Seq<char> {
    match error {
        OnOffControllerError::NonFiniteTimestamp => "On/off input timestamp must be finite"@,
        OnOffControllerError::NonFiniteSetpoint => "On/off setpoint must be finite"@,
        OnOffControllerError::NonFiniteHysteresis => "On/off hysteresis must be finite"@,
        OnOffControllerError::NegativeHysteresis => "On/off hysteresis must be non-negative"@,
        OnOffControllerError::NonFiniteMeasurement => "On/off measurement must be finite"@,
        OnOffControllerError::NonFiniteOutputOff => "On/off output-off value must be finite"@,
        OnOffControllerError::NonFiniteOutputOn => "On/off output-on value must be finite"@,
        OnOffControllerError::NonFiniteThreshold => "On/off hysteresis thresholds must be finite"@,
    }
}

impl OnOffControllerError {
    pub fn to_string(&self) -> (text: String)
        ensures
            text@ == on_off_error_text(*self),
    {
        let text = match self {
            OnOffControllerError::NonFiniteTimestamp => "On/off input timestamp must be finite",
            OnOffControllerError::NonFiniteSetpoint => "On/off setpoint must be finite",
            OnOffControllerError::NonFiniteHysteresis => "On/off hysteresis must be finite",
            OnOffControllerError::NegativeHysteresis => "On/off hysteresis must be non-negative",
            OnOffControllerError::NonFiniteMeasurement => "On/off measurement must be finite",
            OnOffControllerError::NonFiniteOutputOff => "On/off output-off value must be finite",
            OnOffControllerError::NonFiniteOutputOn => "On/off output-on value must be finite",
            OnOffControllerError::NonFiniteThreshold => "On/off hysteresis thresholds must be finite",
        };
        text.to_owned()
    }
}

} // verus!
