//! Balance safety: the catch predicate and the recovery mode it enters.

use vstd::prelude::*;

verus! {

use crate::context::Context;
use crate::feet::Feet;
use crate::joints::spec_joints_from_feet;
use crate::mode::walking::Walking;
use crate::mode::Mode;
use crate::motor_commands::{spec_apply_stiffness, MotorCommands};
use crate::step::Step;
use crate::step_state::StepState;
use crate::support_foot::Side;

/// Whether the planned step end-point is predicted to leave the robot
/// unable to recover balance: the measured center-of-mass projection lies
/// outside the support polygon spanned by the planned end feet, widened
/// by the configured tolerance.
pub open spec fn spec_should_catch(context: Context, end_feet: Feet, support_side: Side) -> bool {
    let tolerance = context.parameters.catch_tolerance as int;
    let forward_low = if end_feet.support_sole.forward <= end_feet.swing_sole.forward {
        end_feet.support_sole.forward as int
    } else {
        end_feet.swing_sole.forward as int
    };
    let forward_high = if end_feet.support_sole.forward <= end_feet.swing_sole.forward {
        end_feet.swing_sole.forward as int
    } else {
        end_feet.support_sole.forward as int
    };
    let left_low = if end_feet.support_sole.left <= end_feet.swing_sole.left {
        end_feet.support_sole.left as int
    } else {
        end_feet.swing_sole.left as int
    };
    let left_high = if end_feet.support_sole.left <= end_feet.swing_sole.left {
        end_feet.swing_sole.left as int
    } else {
        end_feet.support_sole.left as int
    };
    ||| context.center_of_mass.forward < forward_low - tolerance
    ||| context.center_of_mass.forward > forward_high + tolerance
    ||| context.center_of_mass.left < left_low - tolerance
    ||| context.center_of_mass.left > left_high + tolerance
}

/// Evaluate the balance predicate for a planned end configuration.
pub fn should_catch(context: &Context, end_feet: Feet, support_side: Side) -> (r: bool)
    requires
        context.wf(),
        end_feet.in_range(),
    ensures
        r == spec_should_catch(*context, end_feet, support_side),
{
    let tolerance: i64 = context.parameters.catch_tolerance;
    let forward_low: i64 = if end_feet.support_sole.forward <= end_feet.swing_sole.forward {
        end_feet.support_sole.forward
    } else {
        end_feet.swing_sole.forward
    };
    let forward_high: i64 = if end_feet.support_sole.forward <= end_feet.swing_sole.forward {
        end_feet.swing_sole.forward
    } else {
        end_feet.support_sole.forward
    };
    let left_low: i64 = if end_feet.support_sole.left <= end_feet.swing_sole.left {
        end_feet.support_sole.left
    } else {
        end_feet.swing_sole.left
    };
    let left_high: i64 = if end_feet.support_sole.left <= end_feet.swing_sole.left {
        end_feet.swing_sole.left
    } else {
        end_feet.support_sole.left
    };
    context.center_of_mass.forward < forward_low - tolerance
        || context.center_of_mass.forward > forward_high + tolerance
        || context.center_of_mass.left < left_low - tolerance
        || context.center_of_mass.left > left_high + tolerance
}

/// Safety-recovery mode: finishes a careful recovery step, then hands
/// control back to walking.
#[derive(Clone, Copy, Debug, PartialEq, Eq, Structural)]
pub struct Catching {
    pub step: StepState,
    pub support_side: Side,
}

impl Catching {
    /// Well-formed recovery state: the step is, and it agrees on the
    /// support side.
    pub open spec fn inv(self) -> bool {
        self.step.inv() && self.step.plan.support_side == self.support_side
    }

    /// Enter recovery, keeping the interrupted step state.
    pub fn new(_context: &Context, step: StepState, support_side: Side) -> (r: Catching)
        ensures
            r == (Catching { step, support_side }),
    {
        Catching { step, support_side }
    }

    /// The next mode, whatever was requested: recovery ignores the
    /// request and exits back to walking, with a neutral step and the
    /// opposite support side, once its motion completes or times out.
    pub open spec fn spec_advance(self, context: Context) -> Mode {
        if self.step.spec_is_support_switched(context) || self.step.spec_is_timeouted(
            context.parameters,
        ) {
            Mode::Walking(
                Walking::spec_new(
                    context,
                    Step::spec_zero(),
                    self.step.plan.support_side.spec_opposite(),
                    Step::spec_zero(),
                ),
            )
        } else {
            Mode::Catching(self)
        }
    }

    /// Exit to walking once the recovery motion completes; else keep
    /// recovering.
    fn advance(self, context: &Context) -> (m: Mode)
        requires
            self.inv(),
            context.wf(),
        ensures
            m == self.spec_advance(*context),
            m.inv(),
    {
        let current_step = self.step;
        if current_step.is_support_switched(context) || current_step.is_timeouted(
            &context.parameters,
        ) {
            return Mode::Walking(
                Walking::new(
                    context,
                    Step::zero(),
                    current_step.plan.support_side.opposite(),
                    Step::zero(),
                ),
            );
        }
        Mode::Catching(self)
    }

    /// A stand request during recovery: recovery finishes first.
    pub fn stand(self, context: &Context) -> (m: Mode)
        requires
            self.inv(),
            context.wf(),
        ensures
            m == self.spec_advance(*context),
            m.inv(),
    {
        self.advance(context)
    }

    /// A walk request during recovery: recovery finishes first.
    pub fn walk(self, context: &Context, _requested_step: Step) -> (m: Mode)
        requires
            self.inv(),
            context.wf(),
        ensures
            m == self.spec_advance(*context),
            m.inv(),
    {
        self.advance(context)
    }

    /// A kick request during recovery: recovery finishes first.
    pub fn kick(self, context: &Context) -> (m: Mode)
        requires
            self.inv(),
            context.wf(),
        ensures
            m == self.spec_advance(*context),
            m.inv(),
    {
        self.advance(context)
    }

    /// Advance the recovery phase by the last cycle's duration.
    pub fn tick(&mut self, context: &Context)
        ensures
            final(self).step.plan == old(self).step.plan,
            final(self).step.elapsed == StepState::spec_tick_elapsed(
                old(self).step.elapsed,
                context.cycle_duration,
            ),
            final(self).support_side == old(self).support_side,
    {
        self.step.tick(context);
    }

    /// The motor command of the recovery motion at the current phase.
    pub fn compute_commands(&mut self, context: &Context) -> (r: MotorCommands)
        requires
            old(self).inv(),
            context.wf(),
        ensures
            *final(self) == *old(self),
            r == spec_apply_stiffness(
                spec_joints_from_feet(
                    old(self).step.spec_compute_feet(),
                    old(self).step.plan.support_side,
                ),
                context.parameters.stiffnesses.leg_stiffness_walk,
                context.parameters.stiffnesses.arm_stiffness,
            ),
    {
        let feet = self.step.compute_feet(context);
        self.step.compute_joints(context, feet).apply_stiffness(
            context.parameters.stiffnesses.leg_stiffness_walk,
            context.parameters.stiffnesses.arm_stiffness,
        )
    }
}

} // verus!
