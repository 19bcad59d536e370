//! The read-only bundle handed to the controller once per cycle.

use vstd::prelude::*;

verus! {

use crate::feet::Feet;
use crate::parameters::{Parameters, DURATION_LIMIT};

/// The ground projection of the estimated center of mass, in micrometers,
/// in the torso frame the foot poses use.
#[derive(Clone, Copy, Debug, PartialEq, Eq, Structural)]
pub struct CenterOfMass {
    pub forward: i64,
    pub left: i64,
}

/// Per-cycle, read-only bundle of tuning parameters and current
/// sensor/timing state. Never mutated by the controller; passed in fresh
/// each cycle by the surrounding scheduler.
#[derive(Clone, Copy, Debug, PartialEq, Eq, Structural)]
pub struct Context {
    pub parameters: Parameters,
    /// Duration of the last control cycle, µs.
    pub cycle_duration: u64,
    /// Current foot poses derived from joint feedback; the start poses of
    /// any plan created this cycle.
    pub measured_feet: Feet,
    /// Whether the swing foot currently bears load. A support switch is
    /// reported only when this holds at the plan's exchange instant, so a
    /// plan whose swing foot never lands can stall until the timeout.
    pub ground_contact: bool,
    /// Balance estimate used by the catch predicate.
    pub center_of_mass: CenterOfMass,
}

impl Context {
    /// Well-formed cycle input: parameters and sensor values within their
    /// machine limits.
    pub open spec fn wf(self) -> bool {
        &&& self.parameters.wf()
        &&& self.cycle_duration <= DURATION_LIMIT
        &&& self.measured_feet.in_range()
    }
}

} // verus!
