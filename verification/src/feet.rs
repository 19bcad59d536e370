//! Foot poses and the phase interpolation between them.

use vstd::prelude::*;

verus! {

use vstd::arithmetic::div_mod::{
    lemma_div_is_ordered,
    lemma_div_multiples_vanish,
    lemma_div_pos_is_pos,
};
use crate::parameters::{Parameters, DURATION_LIMIT};
use crate::step::{Step, STEP_LIMIT};
use crate::support_foot::Side;

/// Largest magnitude of a foot-pose coordinate, in micrometers or
/// microradians. A machine limit: it keeps the interpolation products
/// inside the integer types.
pub const FOOT_LIMIT: i64 = 2_000_000_000;

/// The planar pose of one sole relative to the torso: `forward` and
/// `left` in micrometers, `turn` in microradians.
#[derive(Clone, Copy, Debug, PartialEq, Eq, Structural)]
pub struct FootPose {
    pub forward: i64,
    pub left: i64,
    pub turn: i64,
}

impl FootPose {
    /// Every coordinate within the machine limit.
    pub open spec fn in_range(self) -> bool {
        &&& -FOOT_LIMIT <= self.forward <= FOOT_LIMIT
        &&& -FOOT_LIMIT <= self.left <= FOOT_LIMIT
        &&& -FOOT_LIMIT <= self.turn <= FOOT_LIMIT
    }
}

/// The poses of both soles, named by their current role.
#[derive(Clone, Copy, Debug, PartialEq, Eq, Structural)]
pub struct Feet {
    pub support_sole: FootPose,
    pub swing_sole: FootPose,
}

impl Feet {
    /// Both poses within the machine limit.
    pub open spec fn in_range(self) -> bool {
        self.support_sole.in_range() && self.swing_sole.in_range()
    }
}

/// Half of `x`, rounded toward zero.
pub open spec fn spec_half(x: int) -> int {
    if x >= 0 {
        x / 2
    } else {
        -((-x) / 2)
    }
}

/// Half of `x`, rounded toward zero.
pub fn half(x: i64) -> (r: i64)
    requires
        -STEP_LIMIT <= x <= STEP_LIMIT,
    ensures
        r == spec_half(x as int),
        x >= 0 ==> 0 <= r <= x,
        x < 0 ==> x <= r <= 0,
{
    if x >= 0 {
        ((x as u64) / 2) as i64
    } else {
        -(((-x) as u64 / 2) as i64)
    }
}

/// Lateral offset of the named sole from the hip line: the left sole
/// stands to the left, the right sole to the right.
pub open spec fn spec_side_offset(parameters: Parameters, side: Side) -> int {
    match side {
        Side::Left => parameters.foot_offset_left as int,
        Side::Right => -(parameters.foot_offset_left as int),
    }
}

/// The foot poses at completion of a step: the support sole moves half the
/// requested displacement backward, the swing sole the remaining half
/// forward, so that the swing sole ends exactly one requested step ahead
/// of the support sole; each sole keeps its lateral hip offset.
pub open spec fn spec_end_feet(parameters: Parameters, step: Step, support_side: Side) -> Feet {
    let half_forward = spec_half(step.forward as int);
    let half_left = spec_half(step.left as int);
    let half_turn = spec_half(step.turn as int);
    Feet {
        support_sole: FootPose {
            forward: (-half_forward) as i64,
            left: (-half_left + spec_side_offset(parameters, support_side)) as i64,
            turn: (-half_turn) as i64,
        },
        swing_sole: FootPose {
            forward: (step.forward - half_forward) as i64,
            left: (step.left - half_left + spec_side_offset(
                parameters,
                support_side.spec_opposite(),
            )) as i64,
            turn: (step.turn - half_turn) as i64,
        },
    }
}

/// The foot poses at completion of a step.
pub fn end_feet_from_request(parameters: &Parameters, step: Step, support_side: Side) -> (r: Feet)
    requires
        parameters.wf(),
        step.in_range(),
    ensures
        r == spec_end_feet(*parameters, step, support_side),
        r.in_range(),
{
    let half_forward: i64 = half(step.forward);
    let half_left: i64 = half(step.left);
    let half_turn: i64 = half(step.turn);
    let offset_support: i64 = match support_side {
        Side::Left => parameters.foot_offset_left,
        Side::Right => -parameters.foot_offset_left,
    };
    let offset_swing: i64 = -offset_support;
    Feet {
        support_sole: FootPose {
            forward: -half_forward,
            left: -half_left + offset_support,
            turn: -half_turn,
        },
        swing_sole: FootPose {
            forward: step.forward - half_forward,
            left: step.left - half_left + offset_swing,
            turn: step.turn - half_turn,
        },
    }
}

/// The coordinate reached after `elapsed` of `duration` on the straight
/// path from `start` to `end`: `start + (end - start) * elapsed / duration`,
/// rounded toward `start`.
pub open spec fn spec_lerp(start: int, end: int, elapsed: int, duration: int) -> int {
    if end >= start {
        start + (end - start) * elapsed / duration
    } else {
        start - (start - end) * elapsed / duration
    }
}

/// The interpolated coordinate stays between `start` and `end`, begins at
/// `start`, and reaches exactly `end` at phase completion.
pub proof fn lemma_lerp_range(start: int, end: int, elapsed: int, duration: int)
    requires
        1 <= duration,
        0 <= elapsed <= duration,
    ensures
        end >= start ==> start <= spec_lerp(start, end, elapsed, duration) <= end,
        end < start ==> end <= spec_lerp(start, end, elapsed, duration) <= start,
        elapsed == 0 ==> spec_lerp(start, end, elapsed, duration) == start,
        elapsed == duration ==> spec_lerp(start, end, elapsed, duration) == end,
{
    let delta = if end >= start {
        end - start
    } else {
        start - end
    };
    assert(delta * elapsed <= delta * duration) by (nonlinear_arith)
        requires
            0 <= delta,
            elapsed <= duration,
    ;
    lemma_div_pos_is_pos(delta * elapsed, duration);
    lemma_div_is_ordered(delta * elapsed, delta * duration, duration);
    lemma_div_multiples_vanish(delta, duration);
    assert(delta * duration == duration * delta) by (nonlinear_arith);
    if elapsed == 0 {
        assert(delta * 0 == 0) by (nonlinear_arith);
    }
    if elapsed == duration {
        assert(delta * elapsed == duration * delta) by (nonlinear_arith)
            requires
                elapsed == duration,
        ;
    }
}

/// Phase monotonicity: along one plan, a later phase instant never lies
/// behind an earlier one on the path from `start` to `end`.
pub proof fn lemma_lerp_monotonic(start: int, end: int, e1: int, e2: int, duration: int)
    requires
        1 <= duration,
        0 <= e1 <= e2 <= duration,
    ensures
        end >= start ==> spec_lerp(start, end, e1, duration) <= spec_lerp(
            start,
            end,
            e2,
            duration,
        ),
        end < start ==> spec_lerp(start, end, e1, duration) >= spec_lerp(
            start,
            end,
            e2,
            duration,
        ),
{
    let delta = if end >= start {
        end - start
    } else {
        start - end
    };
    assert(delta * e1 <= delta * e2) by (nonlinear_arith)
        requires
            0 <= delta,
            e1 <= e2,
    ;
    lemma_div_is_ordered(delta * e1, delta * e2, duration);
}

/// The interpolated coordinate reached after `elapsed` of `duration`.
pub fn lerp_coord(start: i64, end: i64, elapsed: u64, duration: u64) -> (r: i64)
    requires
        1 <= duration <= DURATION_LIMIT,
        elapsed <= duration,
        -FOOT_LIMIT <= start <= FOOT_LIMIT,
        -FOOT_LIMIT <= end <= FOOT_LIMIT,
    ensures
        r == spec_lerp(start as int, end as int, elapsed as int, duration as int),
        -FOOT_LIMIT <= r <= FOOT_LIMIT,
{
    proof {
        lemma_lerp_range(start as int, end as int, elapsed as int, duration as int);
    }
    if end >= start {
        let delta: u64 = (end - start) as u64;
        proof {
            assert(delta * elapsed <= (2 * FOOT_LIMIT as int) * (DURATION_LIMIT as int))
                by (nonlinear_arith)
                requires
                    0 <= delta <= 2 * FOOT_LIMIT as int,
                    0 <= elapsed <= DURATION_LIMIT as int,
            ;
        }
        let scaled: u64 = delta * elapsed;
        let advance: u64 = scaled / duration;
        proof {
            assert(delta * elapsed <= delta * duration) by (nonlinear_arith)
                requires
                    0 <= delta,
                    elapsed <= duration,
            ;
            lemma_div_is_ordered(delta * elapsed, delta * duration, duration as int);
            lemma_div_multiples_vanish(delta as int, duration as int);
            assert(delta * duration == duration * delta) by (nonlinear_arith);
        }
        start + (advance as i64)
    } else {
        let delta: u64 = (start - end) as u64;
        proof {
            assert(delta * elapsed <= (2 * FOOT_LIMIT as int) * (DURATION_LIMIT as int))
                by (nonlinear_arith)
                requires
                    0 <= delta <= 2 * FOOT_LIMIT as int,
                    0 <= elapsed <= DURATION_LIMIT as int,
            ;
        }
        let scaled: u64 = delta * elapsed;
        let advance: u64 = scaled / duration;
        proof {
            assert(delta * elapsed <= delta * duration) by (nonlinear_arith)
                requires
                    0 <= delta,
                    elapsed <= duration,
            ;
            lemma_div_is_ordered(delta * elapsed, delta * duration, duration as int);
            lemma_div_multiples_vanish(delta as int, duration as int);
            assert(delta * duration == duration * delta) by (nonlinear_arith);
        }
        start - (advance as i64)
    }
}

/// Pose-wise interpolation between two foot configurations.
pub open spec fn spec_lerp_pose(
    start: FootPose,
    end: FootPose,
    elapsed: int,
    duration: int,
) -> FootPose {
    FootPose {
        forward: spec_lerp(start.forward as int, end.forward as int, elapsed, duration) as i64,
        left: spec_lerp(start.left as int, end.left as int, elapsed, duration) as i64,
        turn: spec_lerp(start.turn as int, end.turn as int, elapsed, duration) as i64,
    }
}

/// Pose-wise interpolation between two foot configurations.
pub fn lerp_pose(start: FootPose, end: FootPose, elapsed: u64, duration: u64) -> (r: FootPose)
    requires
        1 <= duration <= DURATION_LIMIT,
        elapsed <= duration,
        start.in_range(),
        end.in_range(),
    ensures
        r == spec_lerp_pose(start, end, elapsed as int, duration as int),
        r.in_range(),
{
    FootPose {
        forward: lerp_coord(start.forward, end.forward, elapsed, duration),
        left: lerp_coord(start.left, end.left, elapsed, duration),
        turn: lerp_coord(start.turn, end.turn, elapsed, duration),
    }
}

} // verus!
