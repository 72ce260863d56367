//! PID gains and output limits, carried as binary64 bit patterns, and their validation.
use vstd::prelude::*;

use crate::binary64::{finite, is_finite, less_or_equal, less_than, rank, value_le, value_lt, SIGN_BIT};

verus! {

/// The pattern of `0.0`.
pub const ZERO_BITS: u64 = 0;

/// The pattern of the largest finite binary64 value, `f64::MAX`.
pub const MAX_BITS: u64 = 0x7FEF_FFFF_FFFF_FFFF;

/// The pattern of the most negative finite binary64 value, `-f64::MAX`.
pub const MIN_BITS: u64 = 0xFFEF_FFFF_FFFF_FFFF;

/// Whether a gain is acceptable: finite and not below zero.
pub open spec fn valid_gain(bits: u64) -> bool {
    is_finite(bits) && !value_lt(bits, ZERO_BITS)
}

/// Proportional, integral and derivative gains, each finite and not negative.
#[derive(Clone, Copy, Debug, PartialEq, Eq)]
pub struct PidGains {
    proportional: u64,
    integral: u64,
    derivative: u64,
}

impl View for PidGains {
    type V = (u64, u64, u64);

    closed spec fn view(&self) -> (u64, u64, u64) {
        (self.proportional, self.integral, self.derivative)
    }
}

#[derive(Clone, Copy, Debug, PartialEq, Eq)]
pub enum PidGainsError {
    InvalidProportionalGain,
    InvalidIntegralGain,
    InvalidDerivativeGain,
}

/// Nothing, or the first gain that is refused.
pub open spec fn gains_check(proportional: u64, integral: u64, derivative: u64) -> Result<(), PidGainsError> {
    if !valid_gain(proportional) {
        Err(PidGainsError::InvalidProportionalGain)
    } else if !valid_gain(integral) {
        Err(PidGainsError::InvalidIntegralGain)
    } else if !valid_gain(derivative) {
        Err(PidGainsError::InvalidDerivativeGain)
    } else {
        Ok(())
    }
}

/// The description of a gains error.
pub open spec fn gains_error_text(error: PidGainsError) -> Seq<char> {
    match error {
        PidGainsError::InvalidProportionalGain => "PID proportional gain must be finite and greater than or equal to zero"@,
        PidGainsError::InvalidIntegralGain => "PID integral gain must be finite and greater than or equal to zero"@,
        PidGainsError::InvalidDerivativeGain => "PID derivative gain must be finite and greater than or equal to zero"@,
    }
}

fn gain_is_valid(bits: u64) -> (valid: bool)
    ensures
        valid == valid_gain(bits),
{
    finite(bits) && !less_than(bits, ZERO_BITS)
}

impl PidGains {
    #[verifier::type_invariant]
    spec fn gains_valid(self) -> bool {
        valid_gain(self.proportional) && valid_gain(self.integral) && valid_gain(self.derivative)
    }

    /// Gains from the patterns of three values; refused, naming the first bad gain, unless each is
    /// finite and not below zero.
    pub fn new(proportional: u64, integral: u64, derivative: u64) -> (result: Result<Self, PidGainsError>)
        ensures
            match gains_check(proportional, integral, derivative) {
                Ok(()) => result matches Ok(gains) && gains@ == (proportional, integral, derivative),
                Err(error) => result == Err::<Self, PidGainsError>(error),
            },
    {
        if !gain_is_valid(proportional) {
            return Err(PidGainsError::InvalidProportionalGain);
        }
        if !gain_is_valid(integral) {
            return Err(PidGainsError::InvalidIntegralGain);
        }
        if !gain_is_valid(derivative) {
            return Err(PidGainsError::InvalidDerivativeGain);
        }
        Ok(PidGains { proportional, integral, derivative })
    }

    pub fn proportional(self) -> (bits: u64)
        ensures
            bits == self@.0,
            valid_gain(bits),
    {
        proof {
            use_type_invariant(&self);
        }
        self.proportional
    }

    pub fn integral(self) -> (bits: u64)
        ensures
            bits == self@.1,
            valid_gain(bits),
    {
        proof {
            use_type_invariant(&self);
        }
        self.integral
    }

    pub fn derivative(self) -> (bits: u64)
        ensures
            bits == self@.2,
            valid_gain(bits),
    {
        proof {
            use_type_invariant(&self);
        }
        self.derivative
    }
}

impl PidGainsError {
    pub fn to_string(&self) -> (text: String)
        ensures
            text@ == gains_error_text(*self),
    {
        let text = match self {
            PidGainsError::InvalidProportionalGain => "PID proportional gain must be finite and greater than or equal to zero",
            PidGainsError::InvalidIntegralGain => "PID integral gain must be finite and greater than or equal to zero",
            PidGainsError::InvalidDerivativeGain => "PID derivative gain must be finite and greater than or equal to zero",
        };
        text.to_owned()
    }
}

/// Bounds on a PID output: both finite, the minimum below the maximum.
#[derive(Clone, Copy, Debug, PartialEq, Eq)]
pub struct PidOutputLimits {
    minimum: u64,
    maximum: u64,
}

impl View for PidOutputLimits {
    type V = (u64, u64);

    closed spec fn view(&self) -> (u64, u64) {
        (self.minimum, self.maximum)
    }
}

/// A gain is accepted exactly when it is finite and its value is not below zero: every negative
/// finite value is refused, both zeros and every positive finite value accepted. Gains are checked
/// in the order proportional, integral, derivative, and the first refused one is named.
pub proof fn lemma_gain_accepted_when_finite_and_not_negative(
    proportional: u64,
    integral: u64,
    derivative: u64,
)
    ensures
        forall|bits: u64| #[trigger] valid_gain(bits) <==> is_finite(bits) && rank(bits) >= 0,
        forall|bits: u64| is_finite(bits) && bits > SIGN_BIT ==> !#[trigger] valid_gain(bits),
        gains_check(proportional, integral, derivative) is Ok <==> (is_finite(proportional) && rank(
            proportional,
        ) >= 0 && is_finite(integral) && rank(integral) >= 0 && is_finite(derivative) && rank(
            derivative,
        ) >= 0),
        !(is_finite(proportional) && rank(proportional) >= 0) ==> gains_check(
            proportional,
            integral,
            derivative,
        ) == Err::<(), PidGainsError>(PidGainsError::InvalidProportionalGain),
        is_finite(proportional) && rank(proportional) >= 0 && !(is_finite(integral) && rank(integral)
            >= 0) ==> gains_check(proportional, integral, derivative) == Err::<(), PidGainsError>(
            PidGainsError::InvalidIntegralGain,
        ),
        is_finite(proportional) && rank(proportional) >= 0 && is_finite(integral) && rank(integral)
            >= 0 && !(is_finite(derivative) && rank(derivative) >= 0) ==> gains_check(
            proportional,
            integral,
            derivative,
        ) == Err::<(), PidGainsError>(PidGainsError::InvalidDerivativeGain),
{
}

/// Output limits are accepted exactly when both are finite and the minimum's value is below the
/// maximum's.
pub proof fn lemma_limits_accepted_when_ordered(minimum: u64, maximum: u64)
    ensures
        limits_check(minimum, maximum) is Ok <==> is_finite(minimum) && is_finite(maximum) && rank(
            minimum,
        ) < rank(maximum),
        !is_finite(minimum) ==> limits_check(minimum, maximum) == Err::<(), PidOutputLimitsError>(
            PidOutputLimitsError::InvalidMinimum,
        ),
        is_finite(minimum) && !is_finite(maximum) ==> limits_check(minimum, maximum) == Err::<
            (),
            PidOutputLimitsError,
        >(PidOutputLimitsError::InvalidMaximum),
        is_finite(minimum) && is_finite(maximum) && rank(maximum) <= rank(minimum) ==> limits_check(
            minimum,
            maximum,
        ) == Err::<(), PidOutputLimitsError>(PidOutputLimitsError::InvalidRange),
{
}

#[derive(Clone, Copy, Debug, PartialEq, Eq)]
pub enum PidOutputLimitsError {
    InvalidMinimum,
    InvalidMaximum,
    InvalidRange,
}

/// Nothing, or the first reason to refuse the limits.
pub open spec fn limits_check(minimum: u64, maximum: u64) -> Result<(), PidOutputLimitsError> {
    if !is_finite(minimum) {
        Err(PidOutputLimitsError::InvalidMinimum)
    } else if !is_finite(maximum) {
        Err(PidOutputLimitsError::InvalidMaximum)
    } else if value_le(maximum, minimum) {
        Err(PidOutputLimitsError::InvalidRange)
    } else {
        Ok(())
    }
}

/// The description of a limits error.
pub open spec fn limits_error_text(error: PidOutputLimitsError) -> Seq<char> {
    match error {
        PidOutputLimitsError::InvalidMinimum => "PID output minimum must be finite"@,
        PidOutputLimitsError::InvalidMaximum => "PID output maximum must be finite"@,
        PidOutputLimitsError::InvalidRange => "PID output minimum must be less than its maximum"@,
    }
}

impl PidOutputLimits {
    #[verifier::type_invariant]
    spec fn limits_valid(self) -> bool {
        limits_check(self.minimum, self.maximum) is Ok
    }

    /// Unbounded limits: from `-f64::MAX` to `f64::MAX`.
    pub fn full() -> (limits: Self)
        ensures
            limits@ == (MIN_BITS, MAX_BITS),
    {
        PidOutputLimits { minimum: MIN_BITS, maximum: MAX_BITS }
    }

    /// Limits from the patterns of two values; refused unless both are finite and the minimum is
    /// below the maximum.
    pub fn new(minimum: u64, maximum: u64) -> (result: Result<Self, PidOutputLimitsError>)
        ensures
            match limits_check(minimum, maximum) {
                Ok(()) => result matches Ok(limits) && limits@ == (minimum, maximum),
                Err(error) => result == Err::<Self, PidOutputLimitsError>(error),
            },
    {
        if !finite(minimum) {
            return Err(PidOutputLimitsError::InvalidMinimum);
        }
        if !finite(maximum) {
            return Err(PidOutputLimitsError::InvalidMaximum);
        }
        if less_or_equal(maximum, minimum) {
            return Err(PidOutputLimitsError::InvalidRange);
        }
        Ok(PidOutputLimits { minimum, maximum })
    }

    pub fn minimum(self) -> (bits: u64)
        ensures
            bits == self@.0,
    {
        self.minimum
    }

    pub fn maximum(self) -> (bits: u64)
        ensures
            bits == self@.1,
    {
        self.maximum
    }
}

impl PidOutputLimitsError {
    pub fn to_string(&self) -> (text: String)
        ensures
            text@ == limits_error_text(*self),
    {
        let text = match self {
            PidOutputLimitsError::InvalidMinimum => "PID output minimum must be finite",
            PidOutputLimitsError::InvalidMaximum => "PID output maximum must be finite",
            PidOutputLimitsError::InvalidRange => "PID output minimum must be less than its maximum",
        };
        text.to_owned()
    }
}

} // verus!
