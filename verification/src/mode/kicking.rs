//! The in-walk kick: a kick state layered onto a step state.

use vstd::prelude::*;

verus! {

use crate::context::Context;
use crate::joints::spec_joints_from_feet;
use crate::kick_state::KickState;
use crate::mode::catching::{should_catch, spec_should_catch, Catching};
use crate::mode::walking::Walking;
use crate::mode::Mode;
use crate::motor_commands::{spec_apply_stiffness, MotorCommands};
use crate::step::Step;
use crate::step_plan::StepPlan;
use crate::step_state::StepState;
use crate::support_foot::Side;

/// Executing an in-walk kick: the kick parameters, the step state whose
/// plan realizes the kick's swing displacement and carries its phase,
/// and the support side the kick stands on.
#[derive(Clone, Copy, Debug, PartialEq, Eq, Structural)]
pub struct Kicking {
    pub kick: KickState,
    pub step: StepState,
    pub support_side: Side,
}

impl Kicking {
    /// Well-formed kicking state.
    pub open spec fn inv(self) -> bool {
        &&& self.kick.inv()
        &&& self.step.inv()
        &&& self.step.plan.support_side == self.support_side
    }

    /// The kicking state beginning a kick: its plan realizes the kick's
    /// swing displacement from the measured feet.
    pub open spec fn spec_new(context: Context, kick: KickState, support_side: Side) -> Kicking {
        Kicking {
            kick,
            step: StepState::spec_new(
                StepPlan::spec_new_from_request(
                    context,
                    kick.spec_kick_step(context.parameters),
                    support_side,
                ),
            ),
            support_side,
        }
    }

    /// Begin a kick on the given support side.
    pub fn new(context: &Context, kick: KickState, support_side: Side) -> (r: Kicking)
        requires
            context.wf(),
            kick.inv(),
        ensures
            r == Kicking::spec_new(*context, kick, support_side),
            r.inv(),
    {
        let kick_request = kick.kick_step(&context.parameters);
        let plan = StepPlan::new_from_request(context, kick_request, support_side);
        Kicking { kick, step: StepState::new(plan), support_side }
    }

    /// The next mode once the kick motion completes or stalls: back to
    /// walking with the given next step on the opposite support side.
    /// The evaluation order is fixed: support switch first, catch second,
    /// timeout third, stay otherwise; a timeout always resumes with a
    /// neutral step.
    pub open spec fn spec_advance(self, context: Context, next_step: Step) -> Mode {
        if self.step.spec_is_support_switched(context) {
            Mode::Walking(
                Walking::spec_new(
                    context,
                    next_step,
                    self.step.plan.support_side.spec_opposite(),
                    Step::spec_zero(),
                ),
            )
        } else if spec_should_catch(context, self.step.plan.end_feet, self.step.plan.support_side) {
            Mode::Catching(Catching { step: self.step, support_side: self.step.plan.support_side })
        } else if self.step.spec_is_timeouted(context.parameters) {
            Mode::Walking(
                Walking::spec_new(
                    context,
                    Step::spec_zero(),
                    self.step.plan.support_side.spec_opposite(),
                    Step::spec_zero(),
                ),
            )
        } else {
            Mode::Kicking(self)
        }
    }

    /// Exit to walking with `next_step` once the kick completes; catch or
    /// recover from a stall as a walk does; else keep kicking.
    fn advance(self, context: &Context, next_step: Step) -> (m: Mode)
        requires
            self.inv(),
            context.wf(),
            next_step.in_range(),
        ensures
            m == self.spec_advance(*context, next_step),
            m.inv(),
    {
        let current_step = self.step;
        if current_step.is_support_switched(context) {
            return Mode::Walking(
                Walking::new(
                    context,
                    next_step,
                    current_step.plan.support_side.opposite(),
                    Step::zero(),
                ),
            );
        }
        if should_catch(context, self.step.plan.end_feet, self.step.plan.support_side) {
            return Mode::Catching(
                Catching::new(context, self.step, self.step.plan.support_side),
            );
        }
        if current_step.is_timeouted(&context.parameters) {
            return Mode::Walking(
                Walking::new(
                    context,
                    Step::zero(),
                    current_step.plan.support_side.opposite(),
                    Step::zero(),
                ),
            );
        }
        Mode::Kicking(self)
    }

    /// A stand request during a kick: the kick finishes first, then the
    /// exit resumes with a neutral step.
    pub fn stand(self, context: &Context) -> (m: Mode)
        requires
            self.inv(),
            context.wf(),
        ensures
            m == self.spec_advance(*context, Step::spec_zero()),
            m.inv(),
    {
        self.advance(context, Step::zero())
    }

    /// A walk request during a kick: the kick finishes first, then the
    /// exit resumes toward the caller's step.
    pub fn walk(self, context: &Context, requested_step: Step) -> (m: Mode)
        requires
            self.inv(),
            context.wf(),
            requested_step.in_range(),
        ensures
            m == self.spec_advance(*context, requested_step),
            m.inv(),
    {
        self.advance(context, requested_step)
    }

    /// A kick request during a kick: the running kick finishes first.
    pub fn kick(self, context: &Context) -> (m: Mode)
        requires
            self.inv(),
            context.wf(),
        ensures
            m == self.spec_advance(*context, Step::spec_zero()),
            m.inv(),
    {
        self.advance(context, Step::zero())
    }

    /// Advance the kick phase by the last cycle's duration.
    pub fn tick(&mut self, context: &Context)
        ensures
            final(self).kick == old(self).kick,
            final(self).step.plan == old(self).step.plan,
            final(self).step.elapsed == StepState::spec_tick_elapsed(
                old(self).step.elapsed,
                context.cycle_duration,
            ),
            final(self).support_side == old(self).support_side,
    {
        self.step.tick(context);
    }

    /// The motor command of the kick motion at the current phase.
    pub fn compute_commands(&mut self, context: &Context) -> (r: MotorCommands)
        requires
            old(self).inv(),
            context.wf(),
        ensures
            *final(self) == *old(self),
            r == spec_apply_stiffness(
                spec_joints_from_feet(
                    old(self).step.spec_compute_feet(),
                    old(self).step.plan.support_side,
                ),
                context.parameters.stiffnesses.leg_stiffness_walk,
                context.parameters.stiffnesses.arm_stiffness,
            ),
    {
        let feet = self.step.compute_feet(context);
        self.step.compute_joints(context, feet).apply_stiffness(
            context.parameters.stiffnesses.leg_stiffness_walk,
            context.parameters.stiffnesses.arm_stiffness,
        )
    }
}

} // verus!
