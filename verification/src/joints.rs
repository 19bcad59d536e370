//! Joint-angle bundles for both legs and both arms, in microradians.

use vstd::prelude::*;

verus! {

/// Angles of one leg's joints.
#[derive(Clone, Copy, Debug, PartialEq, Eq, Structural)]
pub struct LegJoints {
    pub hip_yaw_pitch: i64,
    pub hip_roll: i64,
    pub hip_pitch: i64,
    pub knee_pitch: i64,
    pub ankle_pitch: i64,
    pub ankle_roll: i64,
}

impl LegJoints {
    /// Every joint set to the same value (used for stiffness bundles).
    pub open spec fn spec_uniform(value: i64) -> LegJoints {
        LegJoints {
            hip_yaw_pitch: value,
            hip_roll: value,
            hip_pitch: value,
            knee_pitch: value,
            ankle_pitch: value,
            ankle_roll: value,
        }
    }

    /// Every joint set to the same value.
    #[verifier::when_used_as_spec(spec_uniform)]
    pub fn uniform(value: i64) -> (r: LegJoints)
        ensures
            r == LegJoints::spec_uniform(value),
    {
        LegJoints {
            hip_yaw_pitch: value,
            hip_roll: value,
            hip_pitch: value,
            knee_pitch: value,
            ankle_pitch: value,
            ankle_roll: value,
        }
    }
}

/// Angles of one arm's joints.
#[derive(Clone, Copy, Debug, PartialEq, Eq, Structural)]
pub struct ArmJoints {
    pub shoulder_pitch: i64,
    pub shoulder_roll: i64,
    pub elbow_yaw: i64,
}

impl ArmJoints {
    /// Every joint set to the same value (used for stiffness bundles).
    pub open spec fn spec_uniform(value: i64) -> ArmJoints {
        ArmJoints { shoulder_pitch: value, shoulder_roll: value, elbow_yaw: value }
    }

    /// Every joint set to the same value.
    #[verifier::when_used_as_spec(spec_uniform)]
    pub fn uniform(value: i64) -> (r: ArmJoints)
        ensures
            r == ArmJoints::spec_uniform(value),
    {
        ArmJoints { shoulder_pitch: value, shoulder_roll: value, elbow_yaw: value }
    }
}

/// Joint angles of the whole body below the head.
#[derive(Clone, Copy, Debug, PartialEq, Eq, Structural)]
pub struct BodyJoints {
    pub left_leg: LegJoints,
    pub right_leg: LegJoints,
    pub left_arm: ArmJoints,
    pub right_arm: ArmJoints,
}

/// The leg joint angles that place one sole at the given pose: a linear
/// surrogate for the inverse-kinematics solver, continuous and total in
/// the pose. The pitch chain and the roll pair each sum to zero, keeping
/// the sole parallel to the torso.
pub open spec fn spec_leg_from_sole(pose: crate::feet::FootPose) -> LegJoints {
    LegJoints {
        hip_yaw_pitch: pose.turn,
        hip_roll: pose.left,
        hip_pitch: (-pose.forward) as i64,
        knee_pitch: (2 * pose.forward) as i64,
        ankle_pitch: (-pose.forward) as i64,
        ankle_roll: (-pose.left) as i64,
    }
}

/// The arm joint angles swinging counter to the contralateral sole.
pub open spec fn spec_arm_from_opposite_sole(pose: crate::feet::FootPose) -> ArmJoints {
    ArmJoints { shoulder_pitch: pose.forward, shoulder_roll: 0, elbow_yaw: 0 }
}

/// The whole-body joint angles for a pair of foot poses: the support and
/// swing soles are assigned to the left or right leg by the support side,
/// and each arm swings counter to the opposite side's sole. Continuous in
/// the poses.
pub open spec fn spec_joints_from_feet(
    feet: crate::feet::Feet,
    support_side: crate::support_foot::Side,
) -> BodyJoints {
    let left_sole = if support_side == crate::support_foot::Side::Left {
        feet.support_sole
    } else {
        feet.swing_sole
    };
    let right_sole = if support_side == crate::support_foot::Side::Left {
        feet.swing_sole
    } else {
        feet.support_sole
    };
    BodyJoints {
        left_leg: spec_leg_from_sole(left_sole),
        right_leg: spec_leg_from_sole(right_sole),
        left_arm: spec_arm_from_opposite_sole(right_sole),
        right_arm: spec_arm_from_opposite_sole(left_sole),
    }
}

/// The leg joint angles that place one sole at the given pose.
pub fn leg_from_sole(pose: crate::feet::FootPose) -> (r: LegJoints)
    requires
        pose.in_range(),
    ensures
        r == spec_leg_from_sole(pose),
{
    LegJoints {
        hip_yaw_pitch: pose.turn,
        hip_roll: pose.left,
        hip_pitch: -pose.forward,
        knee_pitch: 2 * pose.forward,
        ankle_pitch: -pose.forward,
        ankle_roll: -pose.left,
    }
}

/// The arm joint angles swinging counter to the contralateral sole.
pub fn arm_from_opposite_sole(pose: crate::feet::FootPose) -> (r: ArmJoints)
    requires
        pose.in_range(),
    ensures
        r == spec_arm_from_opposite_sole(pose),
{
    ArmJoints { shoulder_pitch: pose.forward, shoulder_roll: 0, elbow_yaw: 0 }
}

/// The whole-body joint angles for a pair of foot poses.
pub fn joints_from_feet(
    feet: crate::feet::Feet,
    support_side: crate::support_foot::Side,
) -> (r: BodyJoints)
    requires
        feet.in_range(),
    ensures
        r == spec_joints_from_feet(feet, support_side),
{
    let (left_sole, right_sole) = match support_side {
        crate::support_foot::Side::Left => (feet.support_sole, feet.swing_sole),
        crate::support_foot::Side::Right => (feet.swing_sole, feet.support_sole),
    };
    BodyJoints {
        left_leg: leg_from_sole(left_sole),
        right_leg: leg_from_sole(right_sole),
        left_arm: arm_from_opposite_sole(right_sole),
        right_arm: arm_from_opposite_sole(left_sole),
    }
}

} // verus!
