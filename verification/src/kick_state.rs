//! Parameters of an in-progress in-walk kick.

use vstd::prelude::*;

verus! {

use vstd::arithmetic::div_mod::{
    lemma_div_is_ordered,
    lemma_div_multiples_vanish,
    lemma_div_pos_is_pos,
};
use crate::motion_command::KickVariant;
use crate::parameters::{Parameters, UNIT};
use crate::step::{spec_clamp, Step, STEP_LIMIT};
use crate::support_foot::Side;

/// Variant, kicking side and strength of an in-walk kick. Exists only
/// while the kicking mode is active; its phase progress lives in the step
/// state it is layered onto.
#[derive(Clone, Copy, Debug, PartialEq, Eq, Structural)]
pub struct KickState {
    pub variant: KickVariant,
    pub kicking_side: Side,
    /// Kick strength, millionths in `[0, UNIT]`.
    pub strength: i64,
}

impl KickState {
    /// Well-formed kick: strength inside its bounded range.
    pub open spec fn inv(self) -> bool {
        0 <= self.strength <= UNIT
    }

    /// A kick request with the strength forced into its bounded range.
    pub open spec fn spec_new(variant: KickVariant, kicking_side: Side, strength: i64) -> KickState {
        KickState {
            variant,
            kicking_side,
            strength: spec_clamp(strength as int, 0, UNIT as int) as i64,
        }
    }

    /// Record a kick request, clamping the strength into `[0, UNIT]`.
    pub fn new(variant: KickVariant, kicking_side: Side, strength: i64) -> (r: KickState)
        ensures
            r == KickState::spec_new(variant, kicking_side, strength),
            r.inv(),
    {
        let clamped: i64 = if strength < 0 {
            0
        } else if strength > UNIT {
            UNIT
        } else {
            strength
        };
        KickState { variant, kicking_side, strength: clamped }
    }

    /// The swing displacement that executes this kick: the configured
    /// reach scaled by strength, directed by the variant — forward for a
    /// forward kick, a rotation toward the kicking side for a turn kick, a
    /// lateral sweep across the kicking side for a side kick.
    pub open spec fn spec_kick_step(self, parameters: Parameters) -> Step {
        let reach = parameters.kick_reach * self.strength / (UNIT as int);
        match self.variant {
            KickVariant::Forward => Step { forward: reach as i64, left: 0, turn: 0 },
            KickVariant::Turn => Step {
                forward: 0,
                left: 0,
                turn: (if self.kicking_side == Side::Left {
                    reach
                } else {
                    -reach
                }) as i64,
            },
            KickVariant::Side => Step {
                forward: 0,
                left: (if self.kicking_side == Side::Left {
                    -reach
                } else {
                    reach
                }) as i64,
                turn: 0,
            },
        }
    }

    /// The swing displacement that executes this kick.
    pub fn kick_step(&self, parameters: &Parameters) -> (s: Step)
        requires
            parameters.wf(),
            self.inv(),
        ensures
            s == self.spec_kick_step(*parameters),
            s.in_range(),
    {
        proof {
            assert(parameters.kick_reach * self.strength <= (STEP_LIMIT as int) * (UNIT as int))
                by (nonlinear_arith)
                requires
                    0 <= parameters.kick_reach <= STEP_LIMIT,
                    0 <= self.strength <= UNIT,
            ;
        }
        let product: u64 = (parameters.kick_reach as u64) * (self.strength as u64);
        let scaled: u64 = product / (UNIT as u64);
        proof {
            let k = parameters.kick_reach as int;
            let s = self.strength as int;
            let u = UNIT as int;
            assert(k * s <= k * u) by (nonlinear_arith)
                requires
                    0 <= k,
                    s <= u,
            ;
            lemma_div_pos_is_pos(k * s, u);
            lemma_div_is_ordered(k * s, k * u, u);
            lemma_div_multiples_vanish(k, u);
            assert(k * u == u * k) by (nonlinear_arith);
        }
        let reach: i64 = scaled as i64;
        match self.variant {
            KickVariant::Forward => Step { forward: reach, left: 0, turn: 0 },
            KickVariant::Turn => Step {
                forward: 0,
                left: 0,
                turn: if matches!(self.kicking_side, Side::Left) {
                    reach
                } else {
                    -reach
                },
            },
            KickVariant::Side => Step {
                forward: 0,
                left: if matches!(self.kicking_side, Side::Left) {
                    -reach
                } else {
                    reach
                },
                turn: 0,
            },
        }
    }
}

} // verus!
