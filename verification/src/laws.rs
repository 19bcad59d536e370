//! The controller's cross-cutting guarantees, stated and proved over the
//! same spec functions its contracts use.

use vstd::prelude::*;

verus! {

use vstd::arithmetic::div_mod::lemma_multiply_divide_lt;
use crate::context::Context;
use crate::mode::catching::spec_should_catch;
use crate::mode::stopping::Stopping;
use crate::mode::walking::Walking;
use crate::mode::Mode;
use crate::parameters::{Parameters, UNIT};
use crate::step::{spec_smooth_step, spec_turn_bound, Step, STEP_LIMIT};

/// Support alternation: under a walk request that has not timed out, the
/// support side of the next mode is the opposite one exactly when this
/// cycle is the support switch, and the current one otherwise — it never
/// toggles spontaneously. (A timeout is the one deliberate exception: it
/// resets to a neutral step on the swapped side without a switch.)
pub proof fn lemma_support_toggles_only_on_switch(w: Walking, context: Context, requested: Step)
    requires
        w.inv(),
        context.wf(),
        !w.step.spec_is_timeouted(context.parameters),
    ensures
        w.step.spec_is_support_switched(context) ==> w.spec_walk(context, requested)
            .spec_support_side() == w.step.plan.support_side.spec_opposite(),
        !w.step.spec_is_support_switched(context) ==> w.spec_walk(context, requested)
            .spec_support_side() == w.step.plan.support_side,
{
}

/// No spontaneous transitions: while no support switch, no timeout and
/// no balance alarm occurs, every request leaves a walking mode exactly
/// as it is — the state machine never drifts on its own.
pub proof fn lemma_walking_is_stable_without_events(
    w: Walking,
    context: Context,
    requested: Step,
    variant: crate::motion_command::KickVariant,
    kicking_side: crate::support_foot::Side,
    strength: i64,
)
    requires
        w.inv(),
        context.wf(),
        !w.step.spec_is_support_switched(context),
        !w.step.spec_is_timeouted(context.parameters),
        !spec_should_catch(context, w.step.plan.end_feet, w.step.plan.support_side),
    ensures
        w.spec_stand(context) == Mode::Walking(w),
        w.spec_walk(context, requested) == Mode::Walking(w),
        w.spec_kick(context, variant, kicking_side, strength) == Mode::Walking(w),
{
}

/// Turn reduction: while the previous forward magnitude exceeds the
/// threshold, the effective turn bound is the full turn acceleration
/// scaled by the reduction factor — strictly less than the full bound
/// whenever that factor is a true fraction of a positive bound.
pub proof fn lemma_turn_bound_reduced(parameters: Parameters, last_forward: i64)
    requires
        parameters.wf(),
        -STEP_LIMIT <= last_forward <= STEP_LIMIT,
        last_forward > parameters.forward_turn_threshold || -last_forward
            > parameters.forward_turn_threshold,
    ensures
        spec_turn_bound(parameters, last_forward as int) == parameters.max_turn_acceleration
            * parameters.forward_turn_reduction / (UNIT as int),
        parameters.max_turn_acceleration > 0 && parameters.forward_turn_reduction < UNIT
            ==> spec_turn_bound(parameters, last_forward as int)
            < parameters.max_turn_acceleration,
{
    let m = parameters.max_turn_acceleration as int;
    let r = parameters.forward_turn_reduction as int;
    let u = UNIT as int;
    if m > 0 && r < u {
        assert(m * r < u * m) by (nonlinear_arith)
            requires
                0 < m,
                0 <= r < u,
        ;
        lemma_multiply_divide_lt(m * r, u, m);
    }
}

/// Acceleration limiting is asymmetric and lateral motion passes
/// through: the smoothed forward component rises by at most the
/// configured acceleration, falls back toward zero without ever
/// overshooting past it, and the lateral component is the raw request,
/// unclamped.
pub proof fn lemma_smoothing_clamps_forward(parameters: Parameters, requested: Step, last: Step)
    requires
        parameters.wf(),
        requested.in_range(),
        last.in_range(),
    ensures
        last.forward >= 0 ==> spec_smooth_step(parameters, requested, last).forward - last.forward
            <= parameters.max_forward_acceleration,
        last.forward <= 0 ==> last.forward - spec_smooth_step(parameters, requested, last).forward
            <= parameters.max_forward_acceleration,
        last.forward >= 0 ==> spec_smooth_step(parameters, requested, last).forward
            >= if requested.forward >= 0 {
            0
        } else {
            -parameters.max_forward_acceleration as int
        },
        last.forward > 0 ==> spec_smooth_step(parameters, requested, last).forward >= 0,
        last.forward < 0 ==> spec_smooth_step(parameters, requested, last).forward <= 0,
        spec_smooth_step(parameters, requested, last).left == requested.left,
{
}

/// Catch priority: whenever the balance predicate fires on the planned
/// end configuration and this cycle is not the support switch, a walk
/// request yields the catching mode — never walking — and recovery keeps
/// the current support side. (At a support switch the switch-driven
/// transition wins by design.)
pub proof fn lemma_catch_preempts_walk(w: Walking, context: Context, requested: Step)
    requires
        w.inv(),
        context.wf(),
        !w.step.spec_is_support_switched(context),
        spec_should_catch(context, w.step.plan.end_feet, w.step.plan.support_side),
    ensures
        w.spec_walk(context, requested) is Catching,
        w.spec_walk(context, requested).spec_support_side() == w.step.plan.support_side,
{
}

/// Rest is stable: a stand request in the stopping mode, while balance
/// does not demand recovery, returns the very same stopping state — no
/// drift, however often it is applied.
pub proof fn lemma_stand_on_stopping_is_stable(s: Stopping, context: Context)
    requires
        context.wf(),
        !s.spec_should_catch_at_rest(context),
    ensures
        s.spec_stand(context) == Mode::Stopping(s),
        s.spec_stand(context).spec_stand(context) == Mode::Stopping(s),
{
}

} // verus!
