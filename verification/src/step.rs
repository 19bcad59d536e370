//! A displacement request for one step.

use vstd::prelude::*;

verus! {

use crate::parameters::{Parameters, UNIT};

/// Largest magnitude accepted for a step component, in micrometers or
/// microradians. Far beyond any physical step; it exists so that the
/// fixed-point arithmetic below provably stays inside `i64`.
pub const STEP_LIMIT: i64 = 1_000_000_000;

/// A physical-unit displacement request for one step: `forward` and `left`
/// in micrometers, `turn` in microradians. Immutable value type.
#[derive(Clone, Copy, Debug, PartialEq, Eq, Structural)]
pub struct Step {
    pub forward: i64,
    pub left: i64,
    pub turn: i64,
}

impl Step {
    /// The neutral step.
    pub open spec fn spec_zero() -> Step {
        Step { forward: 0, left: 0, turn: 0 }
    }

    /// The neutral step.
    #[verifier::when_used_as_spec(spec_zero)]
    pub fn zero() -> (s: Step)
        ensures
            s == Step::spec_zero(),
    {
        Step { forward: 0, left: 0, turn: 0 }
    }

    /// Every component within the machine limit.
    pub open spec fn in_range(self) -> bool {
        &&& -STEP_LIMIT <= self.forward <= STEP_LIMIT
        &&& -STEP_LIMIT <= self.left <= STEP_LIMIT
        &&& -STEP_LIMIT <= self.turn <= STEP_LIMIT
    }
}

/// `x` forced into `[lo, hi]`.
pub open spec fn spec_clamp(x: int, lo: int, hi: int) -> int {
    if x < lo {
        lo
    } else if x > hi {
        hi
    } else {
        x
    }
}

/// `x` forced into `[lo, hi]`.
pub fn clamp_i64(x: i64, lo: i64, hi: i64) -> (r: i64)
    requires
        lo <= hi,
    ensures
        r == spec_clamp(x as int, lo as int, hi as int),
{
    if x < lo {
        lo
    } else if x > hi {
        hi
    } else {
        x
    }
}

/// Largest allowed decrease of the forward component in one step: the
/// smoothed forward value may always fall back to exactly zero, but may
/// not overshoot past it.
pub open spec fn spec_backward_bound(parameters: Parameters, last_forward: int) -> int {
    if last_forward > 0 {
        -last_forward
    } else {
        -parameters.max_forward_acceleration
    }
}

/// Largest allowed increase of the forward component in one step
/// (mirror of `spec_backward_bound` for backward motion).
pub open spec fn spec_forward_bound(parameters: Parameters, last_forward: int) -> int {
    if last_forward < 0 {
        -last_forward
    } else {
        parameters.max_forward_acceleration as int
    }
}

/// Bound on the turn change per step: the full turn acceleration, reduced
/// by the configured factor while the forward motion is fast.
pub open spec fn spec_turn_bound(parameters: Parameters, last_forward: int) -> int {
    let magnitude = if last_forward >= 0 {
        last_forward
    } else {
        -last_forward
    };
    if magnitude > parameters.forward_turn_threshold {
        parameters.max_turn_acceleration * parameters.forward_turn_reduction / (UNIT as int)
    } else {
        parameters.max_turn_acceleration as int
    }
}

/// The acceleration-smoothed step produced from a raw request and the
/// previous smoothed step: forward and turn deltas are clamped to their
/// bounds, the lateral component passes through unchanged.
pub open spec fn spec_smooth_step(parameters: Parameters, requested: Step, last: Step) -> Step {
    let turn_bound = spec_turn_bound(parameters, last.forward as int);
    Step {
        forward: (last.forward + spec_clamp(
            requested.forward - last.forward,
            spec_backward_bound(parameters, last.forward as int),
            spec_forward_bound(parameters, last.forward as int),
        )) as i64,
        left: requested.left,
        turn: (last.turn + spec_clamp(requested.turn - last.turn, -turn_bound, turn_bound)) as i64,
    }
}

/// The turn bound in effect for the coming step.
pub fn turn_bound(parameters: &Parameters, last_forward: i64) -> (r: i64)
    requires
        parameters.wf(),
        -STEP_LIMIT <= last_forward <= STEP_LIMIT,
    ensures
        r == spec_turn_bound(*parameters, last_forward as int),
        0 <= r <= parameters.max_turn_acceleration,
{
    let magnitude: i64 = if last_forward >= 0 {
        last_forward
    } else {
        -last_forward
    };
    if magnitude > parameters.forward_turn_threshold {
        proof {
            assert(parameters.max_turn_acceleration * parameters.forward_turn_reduction <= (
            STEP_LIMIT as int) * (UNIT as int)) by (nonlinear_arith)
                requires
                    0 <= parameters.max_turn_acceleration <= STEP_LIMIT,
                    0 <= parameters.forward_turn_reduction <= UNIT,
            ;
        }
        let product: u64 = (parameters.max_turn_acceleration as u64) * (
        parameters.forward_turn_reduction as u64);
        let reduced: u64 = product / (UNIT as u64);
        proof {
            lemma_reduced_turn_bound_in_range(*parameters);
        }
        reduced as i64
    } else {
        parameters.max_turn_acceleration
    }
}

/// The reduced turn bound never exceeds the full turn acceleration, and is
/// strictly below it whenever the reduction factor is a true fraction of a
/// positive bound.
proof fn lemma_reduced_turn_bound_in_range(parameters: Parameters)
    requires
        parameters.wf(),
    ensures
        0 <= parameters.max_turn_acceleration * parameters.forward_turn_reduction / (UNIT as int)
            <= parameters.max_turn_acceleration,
{
    let m = parameters.max_turn_acceleration as int;
    let r = parameters.forward_turn_reduction as int;
    let u = UNIT as int;
    assert(m * r <= m * u) by (nonlinear_arith)
        requires
            0 <= m,
            r <= u,
    ;
    assert(0 <= m * r) by (nonlinear_arith)
        requires
            0 <= m,
            0 <= r,
    ;
    vstd::arithmetic::div_mod::lemma_div_is_ordered(m * r, m * u, u);
    vstd::arithmetic::div_mod::lemma_div_multiples_vanish(m, u);
    vstd::arithmetic::div_mod::lemma_div_pos_is_pos(m * r, u);
}

/// The smoothed step for the coming cycle.
pub fn smooth_step(parameters: &Parameters, requested: Step, last: Step) -> (s: Step)
    requires
        parameters.wf(),
        requested.in_range(),
        last.in_range(),
    ensures
        s == spec_smooth_step(*parameters, requested, last),
        s.in_range(),
{
    let backward: i64 = if last.forward > 0 {
        -last.forward
    } else {
        -parameters.max_forward_acceleration
    };
    let forward: i64 = if last.forward < 0 {
        -last.forward
    } else {
        parameters.max_forward_acceleration
    };
    let turn: i64 = turn_bound(parameters, last.forward);
    Step {
        forward: last.forward + clamp_i64(requested.forward - last.forward, backward, forward),
        left: requested.left,
        turn: last.turn + clamp_i64(requested.turn - last.turn, -turn, turn),
    }
}

} // verus!
