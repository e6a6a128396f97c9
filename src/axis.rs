//! Per-axis rules of the cascaded angle/rate controller.
use vstd::prelude::*;

verus! {

/// A rotational axis of the vehicle.
#[derive(Clone, Copy, Debug, PartialEq, Eq, Structural)]
pub enum Axis {
    Roll,
    Pitch,
    Yaw,
}

impl Axis {
    /// Position of the axis in per-axis arrays.
    pub open spec fn spec_index(self) -> int {
        match self {
            Axis::Roll => 0,
            Axis::Pitch => 1,
            Axis::Yaw => 2,
        }
    }

    /// Position of the axis in per-axis arrays: roll, pitch, yaw.
    pub fn index(self) -> (r: usize)
        ensures
            r == self.spec_index(),
            r < 3,
    {
        match self {
            Axis::Roll => 0,
            Axis::Pitch => 1,
            Axis::Yaw => 2,
        }
    }
}

/// Whether the outer angle loop sets the rate setpoint of `axis`: for roll
/// and pitch, unless the controller flies in pure rate mode; yaw is always
/// rate-only.
pub fn uses_angle_loop(axis: Axis, rate_mode: bool) -> (r: bool)
    ensures
        r == (!rate_mode && axis != Axis::Yaw),
{
    !rate_mode && !matches!(axis, Axis::Yaw)
}

/// What one control step does to an axis's accumulated integral.
#[derive(Clone, Copy, Debug, PartialEq, Eq, Structural)]
pub enum IntegralAction {
    /// Set the integral to zero.
    Reset,
    /// Keep the integral as it is.
    Hold,
    /// Add this step's error to the integral.
    Accumulate,
}

/// The integral step: a reset request zeroes it whatever else holds; an axis
/// whose output saturated against its limit keeps it frozen; otherwise it
/// accumulates.
pub fn integral_action(reset_flag: bool, saturated: bool) -> (r: IntegralAction)
    ensures
        reset_flag ==> r == IntegralAction::Reset,
        !reset_flag && saturated ==> r == IntegralAction::Hold,
        !reset_flag && !saturated ==> r == IntegralAction::Accumulate,
{
    if reset_flag {
        IntegralAction::Reset
    } else if saturated {
        IntegralAction::Hold
    } else {
        IntegralAction::Accumulate
    }
}

} // verus!
