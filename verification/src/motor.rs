//! Motor command targets and their validation. The shared handle that
//! carries a target to the serial writer is plain synchronisation and
//! lives with the caller; what is validated here is the command value
//! itself.

use vstd::prelude::*;

verus! {

/// Full bus voltage in millivolts.
pub const MAX_TARGET_MILLIVOLT: i16 = 12_000;

/// What a motor is asked to do.
#[derive(Debug, Clone, Copy, PartialEq, Eq, Structural)]
pub enum Target {
    /// No command; the motor coasts.
    Idle,
    /// A velocity target in revolutions per minute.
    RotationalVelocity(i16),
    /// A raw voltage in millivolts.
    Voltage(i16),
    /// A voltage in thousandths of the full bus voltage.
    PerMilleVoltage(i16),
}

/// A target with its payload clamped into the actuator's range: raw
/// voltages to the bus range, scaled voltages to one unit.
pub open spec fn sanitize_target_spec(t: Target) -> Target {
    match t {
        Target::Voltage(v) => Target::Voltage(
            crate::num::clamp(v as int, -MAX_TARGET_MILLIVOLT as int, MAX_TARGET_MILLIVOLT as int) as i16,
        ),
        Target::PerMilleVoltage(v) => Target::PerMilleVoltage(
            crate::num::clamp(v as int, -1000, 1000) as i16,
        ),
        other => other,
    }
}

/// Clamp a requested target into range before it reaches the motor.
pub fn sanitize_target(t: Target) -> (r: Target)
    ensures
        r == sanitize_target_spec(t),
{
    match t {
        Target::Voltage(v) => {
            let c = if v < -MAX_TARGET_MILLIVOLT {
                -MAX_TARGET_MILLIVOLT
            } else if v > MAX_TARGET_MILLIVOLT {
                MAX_TARGET_MILLIVOLT
            } else {
                v
            };
            Target::Voltage(c)
        },
        Target::PerMilleVoltage(v) => {
            let c = if v < -1000 {
                -1000i16
            } else if v > 1000 {
                1000i16
            } else {
                v
            };
            Target::PerMilleVoltage(c)
        },
        other => other,
    }
}

/// The millivolt value a target asks the serial writer to send, and
/// whether it is a velocity command.
pub fn target_power(t: Target) -> (r: (i16, bool))
    ensures
        r == (match t {
            Target::Idle => (0i16, false),
            Target::RotationalVelocity(v) => (v, true),
            Target::Voltage(v) => (v, false),
            Target::PerMilleVoltage(v) => (
                (crate::num::clamp(v as int, -1000, 1000) * 12) as i16,
                false,
            ),
        }),
{
    match t {
        Target::Idle => (0, false),
        Target::RotationalVelocity(v) => (v, true),
        Target::Voltage(v) => (v, false),
        Target::PerMilleVoltage(v) => {
            let c = if v < -1000 {
                -1000i16
            } else if v > 1000 {
                1000i16
            } else {
                v
            };
            (c * 12, false)
        },
    }
}

} // verus!
