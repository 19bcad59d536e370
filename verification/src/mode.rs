//! The mode state machine: exactly one variant is active per cycle, and
//! the transition policy replaces it wholesale with the next mode.

use vstd::prelude::*;

pub mod catching;
pub mod kicking;
pub mod stopping;
pub mod walking;

verus! {

use crate::context::Context;
use crate::mode::catching::Catching;
use crate::mode::kicking::Kicking;
use crate::mode::stopping::Stopping;
use crate::mode::walking::Walking;
use crate::motion_command::KickVariant;
use crate::motor_commands::MotorCommands;
use crate::step::Step;
use crate::step_state::StepState;
use crate::support_foot::Side;

/// The controller's current behavior, exactly one of four.
#[derive(Clone, Copy, Debug, PartialEq, Eq, Structural)]
pub enum Mode {
    Walking(Walking),
    Catching(Catching),
    Kicking(Kicking),
    Stopping(Stopping),
}

impl Mode {
    /// Well-formed mode: the active variant is.
    pub open spec fn inv(self) -> bool {
        match self {
            Mode::Walking(w) => w.inv(),
            Mode::Catching(c) => c.inv(),
            Mode::Kicking(k) => k.inv(),
            Mode::Stopping(_) => true,
        }
    }

    /// The support side the active variant stands on.
    pub open spec fn spec_support_side(self) -> Side {
        match self {
            Mode::Walking(w) => w.step.plan.support_side,
            Mode::Catching(c) => c.support_side,
            Mode::Kicking(k) => k.support_side,
            Mode::Stopping(s) => s.support_side,
        }
    }

    /// The next mode for a stand request.
    pub open spec fn spec_stand(self, context: Context) -> Mode {
        match self {
            Mode::Walking(w) => w.spec_stand(context),
            Mode::Catching(c) => c.spec_advance(context),
            Mode::Kicking(k) => k.spec_advance(context, Step::spec_zero()),
            Mode::Stopping(s) => s.spec_stand(context),
        }
    }

    /// Apply a stand request to the current mode.
    pub fn stand(self, context: &Context) -> (m: Mode)
        requires
            self.inv(),
            context.wf(),
        ensures
            m == self.spec_stand(*context),
            m.inv(),
    {
        match self {
            Mode::Walking(w) => w.stand(context),
            Mode::Catching(c) => c.stand(context),
            Mode::Kicking(k) => k.stand(context),
            Mode::Stopping(s) => s.stand(context),
        }
    }

    /// The next mode for a walk request.
    pub open spec fn spec_walk(self, context: Context, requested_step: Step) -> Mode {
        match self {
            Mode::Walking(w) => w.spec_walk(context, requested_step),
            Mode::Catching(c) => c.spec_advance(context),
            Mode::Kicking(k) => k.spec_advance(context, requested_step),
            Mode::Stopping(s) => s.spec_walk(context, requested_step),
        }
    }

    /// Apply a walk request to the current mode.
    pub fn walk(self, context: &Context, requested_step: Step) -> (m: Mode)
        requires
            self.inv(),
            context.wf(),
            requested_step.in_range(),
        ensures
            m == self.spec_walk(*context, requested_step),
            m.inv(),
    {
        match self {
            Mode::Walking(w) => w.walk(context, requested_step),
            Mode::Catching(c) => c.walk(context, requested_step),
            Mode::Kicking(k) => k.walk(context, requested_step),
            Mode::Stopping(s) => s.walk(context, requested_step),
        }
    }

    /// The next mode for a kick request.
    pub open spec fn spec_kick(
        self,
        context: Context,
        variant: KickVariant,
        kicking_side: Side,
        strength: i64,
    ) -> Mode {
        match self {
            Mode::Walking(w) => w.spec_kick(context, variant, kicking_side, strength),
            Mode::Catching(c) => c.spec_advance(context),
            Mode::Kicking(k) => k.spec_advance(context, Step::spec_zero()),
            Mode::Stopping(s) => s.spec_kick(context, variant, kicking_side, strength),
        }
    }

    /// Apply a kick request to the current mode.
    pub fn kick(
        self,
        context: &Context,
        variant: KickVariant,
        kicking_side: Side,
        strength: i64,
    ) -> (m: Mode)
        requires
            self.inv(),
            context.wf(),
        ensures
            m == self.spec_kick(*context, variant, kicking_side, strength),
            m.inv(),
    {
        match self {
            Mode::Walking(w) => w.kick(context, variant, kicking_side, strength),
            Mode::Catching(c) => c.kick(context),
            Mode::Kicking(k) => k.kick(context),
            Mode::Stopping(s) => s.kick(context, variant, kicking_side, strength),
        }
    }

    /// The mode after one tick: the active step phase advanced by the
    /// cycle duration; rest has no phase.
    pub open spec fn spec_tick(self, context: Context) -> Mode {
        match self {
            Mode::Walking(w) => Mode::Walking(
                Walking {
                    step: StepState {
                        plan: w.step.plan,
                        elapsed: StepState::spec_tick_elapsed(
                            w.step.elapsed,
                            context.cycle_duration,
                        ),
                    },
                    requested_step: w.requested_step,
                },
            ),
            Mode::Catching(c) => Mode::Catching(
                Catching {
                    step: StepState {
                        plan: c.step.plan,
                        elapsed: StepState::spec_tick_elapsed(
                            c.step.elapsed,
                            context.cycle_duration,
                        ),
                    },
                    support_side: c.support_side,
                },
            ),
            Mode::Kicking(k) => Mode::Kicking(
                Kicking {
                    kick: k.kick,
                    step: StepState {
                        plan: k.step.plan,
                        elapsed: StepState::spec_tick_elapsed(
                            k.step.elapsed,
                            context.cycle_duration,
                        ),
                    },
                    support_side: k.support_side,
                },
            ),
            Mode::Stopping(s) => Mode::Stopping(s),
        }
    }

    /// Advance the active phase by the last cycle's duration.
    pub fn tick(&mut self, context: &Context)
        requires
            old(self).inv(),
        ensures
            *final(self) == old(self).spec_tick(*context),
            final(self).inv(),
    {
        match self {
            Mode::Walking(w) => w.tick(context),
            Mode::Catching(c) => c.tick(context),
            Mode::Kicking(k) => k.tick(context),
            Mode::Stopping(_) => {},
        }
    }

    /// The motor command the active mode owes for the current phase.
    pub open spec fn spec_commands(self, context: Context) -> MotorCommands {
        match self {
            Mode::Walking(w) => crate::motor_commands::spec_apply_stiffness(
                crate::joints::spec_joints_from_feet(
                    w.step.spec_compute_feet(),
                    w.step.plan.support_side,
                ),
                context.parameters.stiffnesses.leg_stiffness_walk,
                context.parameters.stiffnesses.arm_stiffness,
            ),
            Mode::Catching(c) => crate::motor_commands::spec_apply_stiffness(
                crate::joints::spec_joints_from_feet(
                    c.step.spec_compute_feet(),
                    c.step.plan.support_side,
                ),
                context.parameters.stiffnesses.leg_stiffness_walk,
                context.parameters.stiffnesses.arm_stiffness,
            ),
            Mode::Kicking(k) => crate::motor_commands::spec_apply_stiffness(
                crate::joints::spec_joints_from_feet(
                    k.step.spec_compute_feet(),
                    k.step.plan.support_side,
                ),
                context.parameters.stiffnesses.leg_stiffness_walk,
                context.parameters.stiffnesses.arm_stiffness,
            ),
            Mode::Stopping(s) => crate::motor_commands::spec_apply_stiffness(
                crate::joints::spec_joints_from_feet(
                    crate::feet::spec_end_feet(context.parameters, Step::spec_zero(), s.support_side),
                    s.support_side,
                ),
                context.parameters.stiffnesses.leg_stiffness_walk,
                context.parameters.stiffnesses.arm_stiffness,
            ),
        }
    }

    /// Compute the motor command for the current phase. Always well
    /// formed: every joint carries a target angle and a stiffness, in
    /// every mode and mid-transition.
    pub fn compute_commands(&mut self, context: &Context) -> (r: MotorCommands)
        requires
            old(self).inv(),
            context.wf(),
        ensures
            *final(self) == *old(self),
            r == old(self).spec_commands(*context),
    {
        match self {
            Mode::Walking(w) => w.compute_commands(context),
            Mode::Catching(c) => c.compute_commands(context),
            Mode::Kicking(k) => k.compute_commands(context),
            Mode::Stopping(s) => s.compute_commands(context),
        }
    }
}

} // verus!
