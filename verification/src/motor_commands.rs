//! The per-cycle actuator output: a target angle and a stiffness for every
//! joint of both legs and both arms.

use vstd::prelude::*;

verus! {

use crate::joints::{ArmJoints, BodyJoints, LegJoints};

/// The motor command emitted at the end of a cycle. `stiffnesses` carries
/// one gain per joint, in millionths of the full actuator gain.
#[derive(Clone, Copy, Debug, PartialEq, Eq, Structural)]
pub struct MotorCommands {
    pub positions: BodyJoints,
    pub stiffnesses: BodyJoints,
}

/// The command produced by attaching the configured per-group stiffness
/// to computed joint angles: leg joints get `leg_stiffness`, arm joints
/// get `arm_stiffness`, the angles pass through unchanged.
pub open spec fn spec_apply_stiffness(
    positions: BodyJoints,
    leg_stiffness: i64,
    arm_stiffness: i64,
) -> MotorCommands {
    MotorCommands {
        positions,
        stiffnesses: BodyJoints {
            left_leg: LegJoints::spec_uniform(leg_stiffness),
            right_leg: LegJoints::spec_uniform(leg_stiffness),
            left_arm: ArmJoints::spec_uniform(arm_stiffness),
            right_arm: ArmJoints::spec_uniform(arm_stiffness),
        },
    }
}

impl BodyJoints {
    /// Attach a stiffness to every joint: the configured walking profile
    /// for the legs, the arm profile for the arms. Total and
    /// side-effect-free.
    pub fn apply_stiffness(self, leg_stiffness: i64, arm_stiffness: i64) -> (r: MotorCommands)
        ensures
            r == spec_apply_stiffness(self, leg_stiffness, arm_stiffness),
            r.positions == self,
    {
        MotorCommands {
            positions: self,
            stiffnesses: BodyJoints {
                left_leg: LegJoints::uniform(leg_stiffness),
                right_leg: LegJoints::uniform(leg_stiffness),
                left_arm: ArmJoints::uniform(arm_stiffness),
                right_arm: ArmJoints::uniform(arm_stiffness),
            },
        }
    }
}

} // verus!
