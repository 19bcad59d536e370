//! The terminal rest mode: decelerated to a neutral stance.

use vstd::prelude::*;

verus! {

use crate::context::Context;
use crate::feet::{end_feet_from_request, spec_end_feet};
use crate::joints::{joints_from_feet, spec_joints_from_feet};
use crate::kick_state::KickState;
use crate::mode::catching::{should_catch, spec_should_catch, Catching};
use crate::mode::kicking::Kicking;
use crate::mode::walking::Walking;
use crate::mode::Mode;
use crate::motion_command::KickVariant;
use crate::motor_commands::{spec_apply_stiffness, MotorCommands};
use crate::step::Step;
use crate::step_plan::StepPlan;
use crate::step_state::StepState;
use crate::support_foot::Side;

/// At rest on the given support side. Leaves only on a new walk or kick
/// request — or into recovery, which preempts rest like every other mode.
#[derive(Clone, Copy, Debug, PartialEq, Eq, Structural)]
pub struct Stopping {
    pub support_side: Side,
}

impl Stopping {
    /// Come to rest on the given support side.
    pub fn new(_context: &Context, support_side: Side) -> (r: Stopping)
        ensures
            r == (Stopping { support_side }),
    {
        Stopping { support_side }
    }

    /// The recovery state entered from rest: a neutral-step plan on the
    /// current support side.
    pub open spec fn spec_catching_from_rest(self, context: Context) -> Catching {
        Catching {
            step: StepState::spec_new(
                StepPlan::spec_new_from_request(context, Step::spec_zero(), self.support_side),
            ),
            support_side: self.support_side,
        }
    }

    /// Whether balance demands recovery out of the neutral stance.
    pub open spec fn spec_should_catch_at_rest(self, context: Context) -> bool {
        spec_should_catch(
            context,
            spec_end_feet(context.parameters, Step::spec_zero(), self.support_side),
            self.support_side,
        )
    }

    /// The next mode for a stand request: rest is stable — it is left
    /// only when balance demands recovery.
    pub open spec fn spec_stand(self, context: Context) -> Mode {
        if self.spec_should_catch_at_rest(context) {
            Mode::Catching(self.spec_catching_from_rest(context))
        } else {
            Mode::Stopping(self)
        }
    }

    /// Request to keep standing.
    pub fn stand(self, context: &Context) -> (m: Mode)
        requires
            context.wf(),
        ensures
            m == self.spec_stand(*context),
            m.inv(),
    {
        if self.should_catch_at_rest(context) {
            return Mode::Catching(self.catching_from_rest(context));
        }
        Mode::Stopping(self)
    }

    /// The next mode for a walk request: begin walking on the stored
    /// support side with no smoothed-step history, unless balance demands
    /// recovery first.
    pub open spec fn spec_walk(self, context: Context, requested_step: Step) -> Mode {
        if self.spec_should_catch_at_rest(context) {
            Mode::Catching(self.spec_catching_from_rest(context))
        } else {
            Mode::Walking(
                Walking::spec_new(context, requested_step, self.support_side, Step::spec_zero()),
            )
        }
    }

    /// Request to walk out of rest.
    pub fn walk(self, context: &Context, requested_step: Step) -> (m: Mode)
        requires
            context.wf(),
            requested_step.in_range(),
        ensures
            m == self.spec_walk(*context, requested_step),
            m.inv(),
    {
        if self.should_catch_at_rest(context) {
            return Mode::Catching(self.catching_from_rest(context));
        }
        Mode::Walking(Walking::new(context, requested_step, self.support_side, Step::zero()))
    }

    /// The next mode for a kick request: kick at once if the stored
    /// support side is the requested kicking side; otherwise insert a
    /// neutral pre-step so the following switch resolves to it. Balance
    /// recovery preempts both.
    pub open spec fn spec_kick(
        self,
        context: Context,
        variant: KickVariant,
        kicking_side: Side,
        strength: i64,
    ) -> Mode {
        if self.spec_should_catch_at_rest(context) {
            Mode::Catching(self.spec_catching_from_rest(context))
        } else if self.support_side != kicking_side {
            Mode::Walking(
                Walking::spec_new(context, Step::spec_zero(), self.support_side, Step::spec_zero()),
            )
        } else {
            Mode::Kicking(
                Kicking::spec_new(
                    context,
                    KickState::spec_new(variant, kicking_side, strength),
                    self.support_side,
                ),
            )
        }
    }

    /// Request a kick out of rest.
    pub fn kick(
        self,
        context: &Context,
        variant: KickVariant,
        kicking_side: Side,
        strength: i64,
    ) -> (m: Mode)
        requires
            context.wf(),
        ensures
            m == self.spec_kick(*context, variant, kicking_side, strength),
            m.inv(),
    {
        if self.should_catch_at_rest(context) {
            return Mode::Catching(self.catching_from_rest(context));
        }
        if self.support_side != kicking_side {
            return Mode::Walking(
                Walking::new(context, Step::zero(), self.support_side, Step::zero()),
            );
        }
        Mode::Kicking(
            Kicking::new(context, KickState::new(variant, kicking_side, strength), self.support_side),
        )
    }

    /// Evaluate the balance predicate against the neutral stance.
    fn should_catch_at_rest(self, context: &Context) -> (r: bool)
        requires
            context.wf(),
        ensures
            r == self.spec_should_catch_at_rest(*context),
    {
        let end_feet = end_feet_from_request(&context.parameters, Step::zero(), self.support_side);
        should_catch(context, end_feet, self.support_side)
    }

    /// Enter recovery out of the neutral stance.
    fn catching_from_rest(self, context: &Context) -> (r: Catching)
        requires
            context.wf(),
        ensures
            r == self.spec_catching_from_rest(*context),
            r.inv(),
    {
        Catching::new(
            context,
            StepState::new(StepPlan::new_from_request(context, Step::zero(), self.support_side)),
            self.support_side,
        )
    }

    /// The motor command of the neutral stance.
    pub fn compute_commands(&self, context: &Context) -> (r: MotorCommands)
        requires
            context.wf(),
        ensures
            r == spec_apply_stiffness(
                spec_joints_from_feet(
                    spec_end_feet(context.parameters, Step::spec_zero(), self.support_side),
                    self.support_side,
                ),
                context.parameters.stiffnesses.leg_stiffness_walk,
                context.parameters.stiffnesses.arm_stiffness,
            ),
    {
        let feet = end_feet_from_request(&context.parameters, Step::zero(), self.support_side);
        joints_from_feet(feet, self.support_side).apply_stiffness(
            context.parameters.stiffnesses.leg_stiffness_walk,
            context.parameters.stiffnesses.arm_stiffness,
        )
    }
}

} // verus!
