//! The vocabulary of high-level motion commands: the enums with which the
//! behavior layer phrases its requests to the motion subsystem. The gait
//! controller itself consumes `KickVariant` together with a kicking side
//! and strength; the remaining enums are plain value types of the same
//! request vocabulary.

use vstd::prelude::*;

verus! {

/// Requested walking pace.
#[derive(Clone, Copy, Debug, PartialEq, Eq, Structural)]
pub enum WalkSpeed {
    Slow,
    Normal,
    Fast,
}

/// Arm behavior while walking.
#[derive(Clone, Copy, Debug, PartialEq, Eq, Structural)]
pub enum ArmMotion {
    Swing,
    PullTight,
}

/// Direction of a requested kick, seen from the robot.
#[derive(Clone, Copy, Debug, PartialEq, Eq, Structural)]
pub enum KickDirection {
    Back,
    Front,
    Left,
    Right,
}

/// Shape selector of an in-walk kick.
#[derive(Clone, Copy, Debug, PartialEq, Eq, Structural)]
pub enum KickVariant {
    Forward,
    Turn,
    Side,
}

/// Direction of a goalkeeper jump.
#[derive(Clone, Copy, Debug, PartialEq, Eq, Structural)]
pub enum JumpDirection {
    Left,
    Right,
    Center,
}

/// Which side of a look-at target to glance at.
#[derive(Clone, Copy, Debug, PartialEq, Eq, Structural)]
pub enum GlanceDirection {
    LeftOfTarget,
    RightOfTarget,
}

/// Vertical region of the image a look-at target should land in.
#[derive(Clone, Copy, Debug, PartialEq, Eq, Structural)]
pub enum ImageRegion {
    Bottom,
    Center,
}

} // verus!
