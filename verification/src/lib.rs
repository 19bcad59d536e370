//! A per-cycle gait controller for a bipedal robot: a mode state machine that
//! turns locomotion requests (stand, walk with a requested step, kick in
//! walk) into per-cycle joint commands, with acceleration-limited step
//! smoothing, step timeout recovery, and balance-failure preemption.
//!
//! All physical quantities are fixed-point integers: displacements in
//! micrometers, angles in microradians, durations in microseconds, and
//! dimensionless factors (kick strength, stiffness, turn reduction) in
//! millionths of one.

use vstd::prelude::*;

pub mod context;
pub mod feet;
pub mod joints;
pub mod kick_state;
pub mod laws;
pub mod mode;
pub mod motion_command;
pub mod motor_commands;
pub mod parameters;
pub mod step;
pub mod step_plan;
pub mod step_state;
pub mod support_foot;

verus! {

use crate::context::Context;
use crate::mode::walking::Walking;
use crate::mode::Mode;
use crate::motion_command::KickVariant;
use crate::motor_commands::MotorCommands;
use crate::step::Step;
use crate::support_foot::Side;

/// The single locomotion request chosen by the behavior layer for one
/// cycle. Kick strength is a millionths factor; it is clamped into
/// `[0, UNIT]` when the kick begins.
#[derive(Clone, Copy, Debug, PartialEq, Eq, Structural)]
pub enum WalkRequest {
    Stand,
    Walk(Step),
    Kick(KickVariant, Side, i64),
}

/// The gait controller: owns the current mode and replaces it once per
/// cycle with the transition policy's output.
#[derive(Clone, Copy, Debug, PartialEq, Eq, Structural)]
pub struct Engine {
    pub mode: Mode,
}

impl Engine {
    /// Well-formed controller: the mode is.
    pub open spec fn inv(self) -> bool {
        self.mode.inv()
    }

    /// The freshly seeded controller: an initial walking instance with a
    /// neutral step on the given support side.
    pub open spec fn spec_new(context: Context, support_side: Side) -> Engine {
        Engine {
            mode: Mode::Walking(
                Walking::spec_new(context, Step::spec_zero(), support_side, Step::spec_zero()),
            ),
        }
    }

    /// Seed the controller.
    pub fn new(context: &Context, support_side: Side) -> (e: Engine)
        requires
            context.wf(),
        ensures
            e == Engine::spec_new(*context, support_side),
            e.inv(),
    {
        Engine {
            mode: Mode::Walking(Walking::new(context, Step::zero(), support_side, Step::zero())),
        }
    }

    /// The transition policy's output for one request.
    pub open spec fn spec_apply(mode: Mode, context: Context, request: WalkRequest) -> Mode {
        match request {
            WalkRequest::Stand => mode.spec_stand(context),
            WalkRequest::Walk(step) => mode.spec_walk(context, step),
            WalkRequest::Kick(variant, kicking_side, strength) => mode.spec_kick(
                context,
                variant,
                kicking_side,
                strength,
            ),
        }
    }

    /// One control cycle: the transition policy is applied to the current
    /// mode with the cycle's single request, the next mode's phase is
    /// ticked, and its motor command is computed. Returns the command
    /// together with the safe-exit flag: whether the motion may safely be
    /// interrupted, which holds exactly when the controller is at rest.
    pub fn cycle(&mut self, context: &Context, request: WalkRequest) -> (r: (MotorCommands, bool))
        requires
            old(self).inv(),
            context.wf(),
            request matches WalkRequest::Walk(step) ==> step.in_range(),
        ensures
            final(self).mode == Engine::spec_apply(old(self).mode, *context, request).spec_tick(
                *context,
            ),
            final(self).inv(),
            r.0 == final(self).mode.spec_commands(*context),
            r.1 == (final(self).mode is Stopping),
    {
        let mut next: Mode = match request {
            WalkRequest::Stand => self.mode.stand(context),
            WalkRequest::Walk(step) => self.mode.walk(context, step),
            WalkRequest::Kick(variant, kicking_side, strength) => self.mode.kick(
                context,
                variant,
                kicking_side,
                strength,
            ),
        };
        next.tick(context);
        let commands = next.compute_commands(context);
        let safe_exit = matches!(next, Mode::Stopping(_));
        self.mode = next;
        (commands, safe_exit)
    }
}

} // verus!
