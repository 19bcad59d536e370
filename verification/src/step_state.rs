//! One step plan plus elapsed-phase tracking.

use vstd::prelude::*;

verus! {

use crate::context::Context;
use crate::feet::{spec_lerp_pose, lerp_pose, Feet};
use crate::joints::{spec_joints_from_feet, joints_from_feet, BodyJoints};
use crate::parameters::Parameters;
use crate::step_plan::StepPlan;

/// A step plan together with the phase elapsed on it. Owns exactly one
/// plan at a time; replaced wholesale when a new step begins.
#[derive(Clone, Copy, Debug, PartialEq, Eq, Structural)]
pub struct StepState {
    pub plan: StepPlan,
    /// Phase elapsed on the plan, µs.
    pub elapsed: u64,
}

impl StepState {
    /// Well-formed state: the plan is.
    pub open spec fn inv(self) -> bool {
        self.plan.inv()
    }

    /// A fresh state on a plan: no phase elapsed yet.
    pub open spec fn spec_new(plan: StepPlan) -> StepState {
        StepState { plan, elapsed: 0 }
    }

    /// Begin executing a plan.
    pub fn new(plan: StepPlan) -> (r: StepState)
        ensures
            r == StepState::spec_new(plan),
    {
        StepState { plan, elapsed: 0 }
    }

    /// The elapsed phase after one tick: advanced by the cycle duration,
    /// saturating at the top of the counter.
    pub open spec fn spec_tick_elapsed(elapsed: u64, cycle_duration: u64) -> u64 {
        if elapsed + cycle_duration <= u64::MAX {
            (elapsed + cycle_duration) as u64
        } else {
            u64::MAX
        }
    }

    /// Advance the phase by the last cycle's duration.
    pub fn tick(&mut self, context: &Context)
        ensures
            final(self).plan == old(self).plan,
            final(self).elapsed == StepState::spec_tick_elapsed(
                old(self).elapsed,
                context.cycle_duration,
            ),
    {
        if self.elapsed > u64::MAX - context.cycle_duration {
            self.elapsed = u64::MAX;
        } else {
            self.elapsed = self.elapsed + context.cycle_duration;
        }
    }

    /// Whether this cycle is the support exchange: the plan's exchange
    /// instant has been reached and the swing foot bears load.
    pub open spec fn spec_is_support_switched(self, context: Context) -> bool {
        context.ground_contact && self.elapsed >= self.plan.step_duration
    }

    /// Report the support-switch event.
    pub fn is_support_switched(&self, context: &Context) -> (r: bool)
        ensures
            r == self.spec_is_support_switched(*context),
    {
        context.ground_contact && self.elapsed >= self.plan.step_duration
    }

    /// Whether the step has stalled: elapsed phase exceeds the configured
    /// timeout, whatever the sensors say.
    pub open spec fn spec_is_timeouted(self, parameters: Parameters) -> bool {
        self.elapsed > parameters.step_timeout
    }

    /// Report the timeout condition.
    pub fn is_timeouted(&self, parameters: &Parameters) -> (r: bool)
        ensures
            r == self.spec_is_timeouted(*parameters),
    {
        self.elapsed > parameters.step_timeout
    }

    /// Phase progress on the plan, clamped to its duration.
    pub open spec fn spec_progress(self) -> int {
        if self.elapsed <= self.plan.step_duration {
            self.elapsed as int
        } else {
            self.plan.step_duration as int
        }
    }

    /// The current interpolated foot poses: both soles travel on the
    /// straight path from the plan's start poses to its end poses,
    /// reaching them exactly at phase completion and holding them there.
    pub open spec fn spec_compute_feet(self) -> Feet {
        Feet {
            support_sole: spec_lerp_pose(
                self.plan.start_feet.support_sole,
                self.plan.end_feet.support_sole,
                self.spec_progress(),
                self.plan.step_duration as int,
            ),
            swing_sole: spec_lerp_pose(
                self.plan.start_feet.swing_sole,
                self.plan.end_feet.swing_sole,
                self.spec_progress(),
                self.plan.step_duration as int,
            ),
        }
    }

    /// Compute the current foot poses for this phase instant.
    pub fn compute_feet(&self, _context: &Context) -> (r: Feet)
        requires
            self.inv(),
        ensures
            r == self.spec_compute_feet(),
            r.in_range(),
    {
        let progress: u64 = if self.elapsed <= self.plan.step_duration {
            self.elapsed
        } else {
            self.plan.step_duration
        };
        Feet {
            support_sole: lerp_pose(
                self.plan.start_feet.support_sole,
                self.plan.end_feet.support_sole,
                progress,
                self.plan.step_duration,
            ),
            swing_sole: lerp_pose(
                self.plan.start_feet.swing_sole,
                self.plan.end_feet.swing_sole,
                progress,
                self.plan.step_duration,
            ),
        }
    }

    /// Convert foot poses to joint angles for the current support
    /// assignment.
    pub fn compute_joints(&self, _context: &Context, feet: Feet) -> (r: BodyJoints)
        requires
            feet.in_range(),
        ensures
            r == spec_joints_from_feet(feet, self.plan.support_side),
    {
        joints_from_feet(feet, self.plan.support_side)
    }
}

} // verus!
