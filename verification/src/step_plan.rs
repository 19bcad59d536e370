//! The immutable trajectory target of one step.

use vstd::prelude::*;

verus! {

use crate::context::Context;
use crate::feet::{spec_end_feet, end_feet_from_request, Feet};
use crate::parameters::DURATION_LIMIT;
use crate::step::Step;
use crate::support_foot::Side;

/// A concrete foot-trajectory target derived from a requested step and
/// the current support side. Created once per step, immutable thereafter.
#[derive(Clone, Copy, Debug, PartialEq, Eq, Structural)]
pub struct StepPlan {
    pub support_side: Side,
    /// Foot poses when the step begins.
    pub start_feet: Feet,
    /// Foot poses owed at step completion.
    pub end_feet: Feet,
    /// Planned duration of the step, µs.
    pub step_duration: u64,
}

impl StepPlan {
    /// Well-formed plan: poses in range, duration positive and bounded.
    pub open spec fn inv(self) -> bool {
        &&& self.start_feet.in_range()
        &&& self.end_feet.in_range()
        &&& 1 <= self.step_duration <= DURATION_LIMIT
    }

    /// The plan derived from a smoothed step: it starts at the measured
    /// feet, ends at the step's end configuration, and runs for the
    /// configured nominal step duration.
    pub open spec fn spec_new_from_request(
        context: Context,
        step: Step,
        support_side: Side,
    ) -> StepPlan {
        StepPlan {
            support_side,
            start_feet: context.measured_feet,
            end_feet: spec_end_feet(context.parameters, step, support_side),
            step_duration: context.parameters.base_step_duration,
        }
    }

    /// Derive the trajectory target for one step.
    pub fn new_from_request(context: &Context, step: Step, support_side: Side) -> (r: StepPlan)
        requires
            context.wf(),
            step.in_range(),
        ensures
            r == StepPlan::spec_new_from_request(*context, step, support_side),
            r.inv(),
    {
        StepPlan {
            support_side,
            start_feet: context.measured_feet,
            end_feet: end_feet_from_request(&context.parameters, step, support_side),
            step_duration: context.parameters.base_step_duration,
        }
    }
}

} // verus!
