//! The default mode: executing smoothed steps, one plan at a time.

use vstd::prelude::*;

verus! {

use crate::context::Context;
use crate::joints::spec_joints_from_feet;
use crate::kick_state::KickState;
use crate::mode::catching::{should_catch, spec_should_catch, Catching};
use crate::mode::kicking::Kicking;
use crate::mode::stopping::Stopping;
use crate::mode::Mode;
use crate::motion_command::KickVariant;
use crate::motor_commands::{spec_apply_stiffness, MotorCommands};
use crate::step::{smooth_step, spec_smooth_step, Step};
use crate::step_plan::StepPlan;
use crate::step_state::StepState;
use crate::support_foot::Side;

/// Walking (or standing in place): one step state plus the smoothed
/// running request it was planned from. `requested_step` is the
/// acceleration-smoothed target, distinct from the raw request.
#[derive(Clone, Copy, Debug, PartialEq, Eq, Structural)]
pub struct Walking {
    pub step: StepState,
    pub requested_step: Step,
}

impl Walking {
    /// Well-formed walking state.
    pub open spec fn inv(self) -> bool {
        self.step.inv() && self.requested_step.in_range()
    }

    /// The walking state that begins a new step: the raw request is
    /// smoothed against the previous smoothed step, and a fresh plan for
    /// the given support side starts at the measured feet.
    pub open spec fn spec_new(
        context: Context,
        requested_step: Step,
        support_side: Side,
        last_requested_step: Step,
    ) -> Walking {
        let smoothed = spec_smooth_step(context.parameters, requested_step, last_requested_step);
        Walking {
            step: StepState::spec_new(
                StepPlan::spec_new_from_request(context, smoothed, support_side),
            ),
            requested_step: smoothed,
        }
    }

    /// Begin a new step toward `requested_step`, acceleration-smoothing
    /// it against `last_requested_step`, on the given support side.
    pub fn new(
        context: &Context,
        requested_step: Step,
        support_side: Side,
        last_requested_step: Step,
    ) -> (w: Walking)
        requires
            context.wf(),
            requested_step.in_range(),
            last_requested_step.in_range(),
        ensures
            w == Walking::spec_new(*context, requested_step, support_side, last_requested_step),
            w.inv(),
    {
        let requested_step = smooth_step(&context.parameters, requested_step, last_requested_step);
        let plan = StepPlan::new_from_request(context, requested_step, support_side);
        let step = StepState::new(plan);
        Walking { step, requested_step }
    }

    /// Resume walking around an already-running step state.
    pub fn new_with_step(step: StepState, requested_step: Step) -> (w: Walking)
        ensures
            w == (Walking { step, requested_step }),
    {
        Walking { step, requested_step }
    }

    /// The next mode for a stand request: stop on the opposite side once
    /// the step completes or stalls; otherwise catch if balance demands
    /// it; otherwise keep walking unchanged.
    pub open spec fn spec_stand(self, context: Context) -> Mode {
        if self.step.spec_is_support_switched(context) || self.step.spec_is_timeouted(
            context.parameters,
        ) {
            Mode::Stopping(Stopping { support_side: self.step.plan.support_side.spec_opposite() })
        } else if spec_should_catch(context, self.step.plan.end_feet, self.step.plan.support_side) {
            Mode::Catching(Catching { step: self.step, support_side: self.step.plan.support_side })
        } else {
            Mode::Walking(self)
        }
    }

    /// Request to come to a stand.
    pub fn stand(self, context: &Context) -> (m: Mode)
        requires
            self.inv(),
            context.wf(),
        ensures
            m == self.spec_stand(*context),
            m.inv(),
    {
        let current_step = self.step;
        if current_step.is_support_switched(context) || current_step.is_timeouted(
            &context.parameters,
        ) {
            return Mode::Stopping(
                Stopping::new(context, current_step.plan.support_side.opposite()),
            );
        }
        if should_catch(context, self.step.plan.end_feet, self.step.plan.support_side) {
            return Mode::Catching(
                Catching::new(context, self.step, self.step.plan.support_side),
            );
        }
        Mode::Walking(self)
    }

    /// The next mode for a walk request. The evaluation order is
    /// load-bearing: a support switch that coincides with a catch
    /// condition produces the switch-driven new plan, never a catch.
    pub open spec fn spec_walk(self, context: Context, requested_step: Step) -> Mode {
        if self.step.spec_is_support_switched(context) {
            Mode::Walking(
                Walking::spec_new(
                    context,
                    requested_step,
                    self.step.plan.support_side.spec_opposite(),
                    self.requested_step,
                ),
            )
        } else if spec_should_catch(context, self.step.plan.end_feet, self.step.plan.support_side) {
            Mode::Catching(Catching { step: self.step, support_side: self.step.plan.support_side })
        } else if self.step.spec_is_timeouted(context.parameters) {
            Mode::Walking(
                Walking::spec_new(
                    context,
                    Step::spec_zero(),
                    self.step.plan.support_side.spec_opposite(),
                    self.requested_step,
                ),
            )
        } else {
            Mode::Walking(self)
        }
    }

    /// Request to keep walking toward `requested_step`.
    pub fn walk(self, context: &Context, requested_step: Step) -> (m: Mode)
        requires
            self.inv(),
            context.wf(),
            requested_step.in_range(),
        ensures
            m == self.spec_walk(*context, requested_step),
            m.inv(),
    {
        let current_step = self.step;
        if current_step.is_support_switched(context) {
            return Mode::Walking(
                Walking::new(
                    context,
                    requested_step,
                    current_step.plan.support_side.opposite(),
                    self.requested_step,
                ),
            );
        }
        if should_catch(context, self.step.plan.end_feet, self.step.plan.support_side) {
            return Mode::Catching(
                Catching::new(context, self.step, self.step.plan.support_side),
            );
        }
        if current_step.is_timeouted(&context.parameters) {
            return Mode::Walking(
                Walking::new(
                    context,
                    Step::zero(),
                    current_step.plan.support_side.opposite(),
                    self.requested_step,
                ),
            );
        }
        Mode::Walking(self)
    }

    /// The next mode for a kick request: at a support switch the kick
    /// begins only if the side about to become the support equals the
    /// requested kicking side; otherwise a neutral pre-step is inserted
    /// first. Catch and timeout behave as under a walk request.
    pub open spec fn spec_kick(
        self,
        context: Context,
        variant: KickVariant,
        kicking_side: Side,
        strength: i64,
    ) -> Mode {
        if self.step.spec_is_support_switched(context) {
            let next_support_side = self.step.plan.support_side.spec_opposite();
            if next_support_side != kicking_side {
                Mode::Walking(
                    Walking::spec_new(
                        context,
                        Step::spec_zero(),
                        next_support_side,
                        self.requested_step,
                    ),
                )
            } else {
                Mode::Kicking(
                    Kicking::spec_new(
                        context,
                        KickState::spec_new(variant, kicking_side, strength),
                        next_support_side,
                    ),
                )
            }
        } else if spec_should_catch(context, self.step.plan.end_feet, self.step.plan.support_side) {
            Mode::Catching(Catching { step: self.step, support_side: self.step.plan.support_side })
        } else if self.step.spec_is_timeouted(context.parameters) {
            Mode::Walking(
                Walking::spec_new(
                    context,
                    Step::spec_zero(),
                    self.step.plan.support_side.spec_opposite(),
                    self.requested_step,
                ),
            )
        } else {
            Mode::Walking(self)
        }
    }

    /// Request an in-walk kick.
    pub fn kick(
        self,
        context: &Context,
        variant: KickVariant,
        kicking_side: Side,
        strength: i64,
    ) -> (m: Mode)
        requires
            self.inv(),
            context.wf(),
        ensures
            m == self.spec_kick(*context, variant, kicking_side, strength),
            m.inv(),
    {
        let current_step = self.step;
        if current_step.is_support_switched(context) {
            let next_support_side = current_step.plan.support_side.opposite();
            if next_support_side != kicking_side {
                return Mode::Walking(
                    Walking::new(context, Step::zero(), next_support_side, self.requested_step),
                );
            }
            return Mode::Kicking(
                Kicking::new(
                    context,
                    KickState::new(variant, kicking_side, strength),
                    next_support_side,
                ),
            );
        }
        if should_catch(context, self.step.plan.end_feet, self.step.plan.support_side) {
            return Mode::Catching(
                Catching::new(context, self.step, self.step.plan.support_side),
            );
        }
        if current_step.is_timeouted(&context.parameters) {
            return Mode::Walking(
                Walking::new(
                    context,
                    Step::zero(),
                    current_step.plan.support_side.opposite(),
                    self.requested_step,
                ),
            );
        }
        Mode::Walking(self)
    }

    /// The motor command for the current phase: interpolated feet, the
    /// surrogate kinematics, and the configured stiffness profile.
    pub fn compute_commands(&mut self, context: &Context) -> (r: MotorCommands)
        requires
            old(self).inv(),
            context.wf(),
        ensures
            *final(self) == *old(self),
            r == spec_apply_stiffness(
                spec_joints_from_feet(
                    old(self).step.spec_compute_feet(),
                    old(self).step.plan.support_side,
                ),
                context.parameters.stiffnesses.leg_stiffness_walk,
                context.parameters.stiffnesses.arm_stiffness,
            ),
    {
        let feet = self.step.compute_feet(context);
        self.step.compute_joints(context, feet).apply_stiffness(
            context.parameters.stiffnesses.leg_stiffness_walk,
            context.parameters.stiffnesses.arm_stiffness,
        )
    }

    /// Advance the step phase by the last cycle's duration.
    pub fn tick(&mut self, context: &Context)
        ensures
            final(self).step.plan == old(self).step.plan,
            final(self).step.elapsed == StepState::spec_tick_elapsed(
                old(self).step.elapsed,
                context.cycle_duration,
            ),
            final(self).requested_step == old(self).requested_step,
    {
        self.step.tick(context);
    }
}

} // verus!
