//! Tuning parameters, fixed for the lifetime of one cycle.

use vstd::prelude::*;

verus! {

use crate::step::STEP_LIMIT;

/// Fixed-point one: dimensionless factors (turn reduction, kick strength,
/// stiffness) are stored in millionths of one.
pub const UNIT: i64 = 1_000_000;

/// Largest accepted duration, in microseconds (about a quarter hour).
/// A machine limit that keeps phase interpolation inside `i64`.
pub const DURATION_LIMIT: u64 = 1_000_000_000;

/// Stiffness settings per joint group, in millionths of the full actuator
/// gain: distinct profiles for the legs during walking and for the arms.
#[derive(Clone, Copy, Debug, PartialEq, Eq, Structural)]
pub struct Stiffnesses {
    pub leg_stiffness_walk: i64,
    pub arm_stiffness: i64,
}

/// The gait controller's tuning parameters. Never mutated by the
/// controller; supplied fresh inside each cycle's `Context`.
#[derive(Clone, Copy, Debug, PartialEq, Eq, Structural)]
pub struct Parameters {
    /// Largest change of the smoothed forward component per step, µm.
    pub max_forward_acceleration: i64,
    /// Largest change of the smoothed turn component per step, µrad.
    pub max_turn_acceleration: i64,
    /// Forward magnitude above which the turn bound is reduced, µm.
    pub forward_turn_threshold: i64,
    /// Factor applied to the turn bound during fast forward motion,
    /// millionths in `[0, UNIT]`.
    pub forward_turn_reduction: i64,
    /// Nominal duration of one step, µs.
    pub base_step_duration: u64,
    /// Elapsed phase after which a step counts as stalled, µs.
    pub step_timeout: u64,
    /// Lateral distance of each sole from the hip line, µm.
    pub foot_offset_left: i64,
    /// Swing-foot displacement of a full-strength kick, µm or µrad.
    pub kick_reach: i64,
    /// Margin added around the planned support polygon before balance
    /// loss is predicted, µm.
    pub catch_tolerance: i64,
    pub stiffnesses: Stiffnesses,
}

impl Parameters {
    /// Well-formed parameters: every magnitude within its machine limit.
    pub open spec fn wf(self) -> bool {
        &&& 0 <= self.max_forward_acceleration <= STEP_LIMIT
        &&& 0 <= self.max_turn_acceleration <= STEP_LIMIT
        &&& 0 <= self.forward_turn_threshold <= STEP_LIMIT
        &&& 0 <= self.forward_turn_reduction <= UNIT
        &&& 1 <= self.base_step_duration <= DURATION_LIMIT
        &&& self.step_timeout <= DURATION_LIMIT
        &&& 0 <= self.foot_offset_left <= STEP_LIMIT
        &&& 0 <= self.kick_reach <= STEP_LIMIT
        &&& 0 <= self.catch_tolerance <= STEP_LIMIT
        &&& 0 <= self.stiffnesses.leg_stiffness_walk <= UNIT
        &&& 0 <= self.stiffnesses.arm_stiffness <= UNIT
    }
}

} // verus!
