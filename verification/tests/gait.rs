use walking_engine::context::{CenterOfMass, Context};
use walking_engine::feet::{Feet, FootPose};
use walking_engine::kick_state::KickState;
use walking_engine::mode::catching::{should_catch, Catching};
use walking_engine::mode::stopping::Stopping;
use walking_engine::mode::walking::Walking;
use walking_engine::mode::Mode;
use walking_engine::motion_command::KickVariant;
use walking_engine::motor_commands::MotorCommands;
use walking_engine::parameters::{Parameters, Stiffnesses, UNIT};
use walking_engine::step::{smooth_step, turn_bound, Step};
use walking_engine::step_plan::StepPlan;
use walking_engine::step_state::StepState;
use walking_engine::support_foot::Side;
use walking_engine::{Engine, WalkRequest};

fn default_parameters() -> Parameters {
    Parameters {
        max_forward_acceleration: 100_000,
        max_turn_acceleration: 50_000,
        forward_turn_threshold: 50_000,
        forward_turn_reduction: 500_000,
        base_step_duration: 250_000,
        step_timeout: 3_000_000,
        foot_offset_left: 50_000,
        kick_reach: 60_000,
        catch_tolerance: 100_000,
        stiffnesses: Stiffnesses {
            leg_stiffness_walk: 800_000,
            arm_stiffness: 500_000,
        },
    }
}

fn neutral_feet() -> Feet {
    Feet {
        support_sole: FootPose {
            forward: 0,
            left: 50_000,
            turn: 0,
        },
        swing_sole: FootPose {
            forward: 0,
            left: -50_000,
            turn: 0,
        },
    }
}

fn default_context() -> Context {
    Context {
        parameters: default_parameters(),
        cycle_duration: 12_000,
        measured_feet: neutral_feet(),
        ground_contact: false,
        center_of_mass: CenterOfMass { forward: 0, left: 0 },
    }
}

fn walking_at(context: &Context, support_side: Side, elapsed: u64) -> Walking {
    let mut walking = Walking::new(context, Step::zero(), support_side, Step::zero());
    walking.step.elapsed = elapsed;
    walking
}

#[test]
fn acceleration_clamp_limits_forward_increase() {
    let parameters = default_parameters();
    let last = Step::zero();
    let requested = Step {
        forward: 300_000,
        left: 0,
        turn: 0,
    };
    let smoothed = smooth_step(&parameters, requested, last);
    assert_eq!(smoothed.forward, 100_000);
}

#[test]
fn acceleration_clamp_limits_backward_increase() {
    let parameters = default_parameters();
    let last = Step::zero();
    let requested = Step {
        forward: -300_000,
        left: 0,
        turn: 0,
    };
    let smoothed = smooth_step(&parameters, requested, last);
    assert_eq!(smoothed.forward, -100_000);
}

#[test]
fn forward_falls_back_to_zero_without_overshoot() {
    let parameters = default_parameters();
    let last = Step {
        forward: 200_000,
        left: 0,
        turn: 0,
    };
    let requested = Step {
        forward: -300_000,
        left: 0,
        turn: 0,
    };
    let smoothed = smooth_step(&parameters, requested, last);
    assert_eq!(smoothed.forward, 0);
}

#[test]
fn lateral_component_passes_through_unclamped() {
    let parameters = default_parameters();
    let requested = Step {
        forward: 0,
        left: 987_654,
        turn: 0,
    };
    let smoothed = smooth_step(&parameters, requested, Step::zero());
    assert_eq!(smoothed.left, 987_654);
}

#[test]
fn largest_request_is_absorbed_in_steps() {
    let parameters = default_parameters();
    let requested = Step {
        forward: 1_000_000_000,
        left: 0,
        turn: 0,
    };
    let smoothed = smooth_step(&parameters, requested, Step::zero());
    assert_eq!(smoothed.forward, 100_000);
    let last = Step {
        forward: 1_000_000_000,
        left: 0,
        turn: 0,
    };
    let back_to_rest = smooth_step(&parameters, Step::zero(), last);
    assert_eq!(back_to_rest.forward, 0);
}

#[test]
fn turn_bound_is_reduced_during_fast_forward_motion() {
    let parameters = default_parameters();
    let reduced = turn_bound(&parameters, 200_000);
    assert_eq!(reduced, 25_000);
    assert!(reduced < parameters.max_turn_acceleration);
    let full = turn_bound(&parameters, 40_000);
    assert_eq!(full, 50_000);
}

#[test]
fn turn_request_is_clamped_to_reduced_bound() {
    let parameters = default_parameters();
    let last = Step {
        forward: 200_000,
        left: 0,
        turn: 0,
    };
    let requested = Step {
        forward: 200_000,
        left: 0,
        turn: 90_000,
    };
    let smoothed = smooth_step(&parameters, requested, last);
    assert_eq!(smoothed.turn, 25_000);
}

#[test]
fn walk_without_switch_keeps_mode_unchanged() {
    let context = default_context();
    let walking = walking_at(&context, Side::Left, 0);
    let next = walking.walk(
        &context,
        Step {
            forward: 10_000,
            left: 0,
            turn: 0,
        },
    );
    assert_eq!(next, Mode::Walking(walking));
}

#[test]
fn walk_at_switch_toggles_support_side() {
    let mut context = default_context();
    context.ground_contact = true;
    let walking = walking_at(&context, Side::Left, 250_000);
    let next = walking.walk(&context, Step::zero());
    match next {
        Mode::Walking(w) => {
            assert_eq!(w.step.plan.support_side, Side::Right);
            assert_eq!(w.step.elapsed, 0);
        }
        _ => panic!("expected walking after a support switch"),
    }
}

#[test]
fn switch_needs_ground_contact() {
    let context = default_context();
    let state = walking_at(&context, Side::Left, 250_000).step;
    assert!(!state.is_support_switched(&context));
    let mut with_contact = context;
    with_contact.ground_contact = true;
    assert!(state.is_support_switched(&with_contact));
    let early = walking_at(&with_contact, Side::Left, 249_999).step;
    assert!(!early.is_support_switched(&with_contact));
}

#[test]
fn catch_preempts_walk_request() {
    let mut context = default_context();
    context.center_of_mass = CenterOfMass {
        forward: 5_000_000,
        left: 0,
    };
    let walking = walking_at(&context, Side::Left, 0);
    let next = walking.walk(
        &context,
        Step {
            forward: 50_000,
            left: 0,
            turn: 0,
        },
    );
    match next {
        Mode::Catching(catching) => {
            assert_eq!(catching.support_side, Side::Left);
        }
        _ => panic!("expected catching when the balance predicate fires"),
    }
}

#[test]
fn switch_wins_over_catch() {
    let mut context = default_context();
    context.ground_contact = true;
    context.center_of_mass = CenterOfMass {
        forward: 5_000_000,
        left: 0,
    };
    let walking = walking_at(&context, Side::Left, 250_000);
    let next = walking.walk(&context, Step::zero());
    assert!(matches!(next, Mode::Walking(_)));
}

#[test]
fn timeout_recovers_with_zero_step_on_opposite_side() {
    let context = default_context();
    let walking = walking_at(&context, Side::Left, 3_000_001);
    let next = walking.walk(
        &context,
        Step {
            forward: 70_000,
            left: 0,
            turn: 0,
        },
    );
    match next {
        Mode::Walking(w) => {
            assert_eq!(w.step.plan.support_side, Side::Right);
            assert_eq!(w.requested_step, Step::zero());
        }
        _ => panic!("expected a forced recovery step after a timeout"),
    }
}

#[test]
fn timeout_needs_excess_phase() {
    let context = default_context();
    let state = walking_at(&context, Side::Left, 3_000_000).step;
    assert!(!state.is_timeouted(&context.parameters));
    let late = walking_at(&context, Side::Left, 3_000_001).step;
    assert!(late.is_timeouted(&context.parameters));
}

#[test]
fn kick_side_mismatch_inserts_pre_step() {
    let mut context = default_context();
    context.ground_contact = true;
    let walking = walking_at(&context, Side::Left, 250_000);
    let next = walking.kick(&context, KickVariant::Forward, Side::Left, 500_000);
    match next {
        Mode::Walking(w) => {
            assert_eq!(w.step.plan.support_side, Side::Right);
            assert_eq!(w.requested_step, Step::zero());
        }
        _ => panic!("expected a pre-step when the kicking side mismatches"),
    }
}

#[test]
fn kick_on_matching_side_starts_kicking() {
    let mut context = default_context();
    context.ground_contact = true;
    let walking = walking_at(&context, Side::Right, 250_000);
    let next = walking.kick(&context, KickVariant::Forward, Side::Left, 2_000_000);
    match next {
        Mode::Kicking(kicking) => {
            assert_eq!(kicking.support_side, Side::Left);
            assert_eq!(kicking.kick.kicking_side, Side::Left);
            assert_eq!(kicking.kick.strength, UNIT);
            assert_eq!(kicking.step.plan.support_side, Side::Left);
        }
        _ => panic!("expected kicking on the matching side"),
    }
}

#[test]
fn stand_at_switch_stops_on_opposite_side() {
    let mut context = default_context();
    context.ground_contact = true;
    let walking = walking_at(&context, Side::Left, 250_000);
    let next = walking.stand(&context);
    assert_eq!(
        next,
        Mode::Stopping(Stopping {
            support_side: Side::Right
        })
    );
}

#[test]
fn stand_without_condition_keeps_walking() {
    let context = default_context();
    let walking = walking_at(&context, Side::Left, 0);
    let next = walking.stand(&context);
    assert_eq!(next, Mode::Walking(walking));
}

#[test]
fn stand_on_stopping_is_idempotent() {
    let context = default_context();
    let stopping = Stopping {
        support_side: Side::Left,
    };
    let once = stopping.stand(&context);
    assert_eq!(once, Mode::Stopping(stopping));
    match once {
        Mode::Stopping(again) => {
            assert_eq!(again.stand(&context), Mode::Stopping(stopping));
        }
        _ => panic!("expected rest to be stable"),
    }
}

#[test]
fn catching_exits_to_walking_after_recovery() {
    let mut context = default_context();
    context.ground_contact = true;
    let step = walking_at(&context, Side::Left, 250_000).step;
    let catching = Catching::new(&context, step, Side::Left);
    let next = catching.walk(&context, Step::zero());
    match next {
        Mode::Walking(w) => {
            assert_eq!(w.step.plan.support_side, Side::Right);
            assert_eq!(w.requested_step, Step::zero());
        }
        _ => panic!("expected walking once recovery completes"),
    }
    let still = Catching::new(&context, walking_at(&context, Side::Left, 0).step, Side::Left);
    let unchanged = still.walk(
        &Context {
            ground_contact: false,
            ..context
        },
        Step::zero(),
    );
    assert_eq!(unchanged, Mode::Catching(still));
}

#[test]
fn stopping_leaves_on_walk_request() {
    let context = default_context();
    let stopping = Stopping {
        support_side: Side::Right,
    };
    let next = stopping.walk(
        &context,
        Step {
            forward: 40_000,
            left: 0,
            turn: 0,
        },
    );
    match next {
        Mode::Walking(w) => {
            assert_eq!(w.step.plan.support_side, Side::Right);
            assert_eq!(w.requested_step.forward, 40_000);
        }
        _ => panic!("expected walking out of rest"),
    }
}

#[test]
fn stopping_kick_mismatch_inserts_pre_step() {
    let context = default_context();
    let stopping = Stopping {
        support_side: Side::Right,
    };
    let next = stopping.kick(&context, KickVariant::Forward, Side::Left, 500_000);
    match next {
        Mode::Walking(w) => {
            assert_eq!(w.step.plan.support_side, Side::Right);
            assert_eq!(w.requested_step, Step::zero());
        }
        _ => panic!("expected a pre-step out of rest"),
    }
    let matched = stopping.kick(&context, KickVariant::Forward, Side::Right, 500_000);
    assert!(matches!(matched, Mode::Kicking(_)));
}

#[test]
fn kick_strength_is_clamped_and_scales_reach() {
    let parameters = default_parameters();
    let half = KickState::new(KickVariant::Forward, Side::Left, 500_000);
    assert_eq!(half.strength, 500_000);
    assert_eq!(half.kick_step(&parameters).forward, 30_000);
    let negative = KickState::new(KickVariant::Forward, Side::Left, -3);
    assert_eq!(negative.strength, 0);
    assert_eq!(negative.kick_step(&parameters).forward, 0);
    let over = KickState::new(KickVariant::Forward, Side::Left, 9_999_999);
    assert_eq!(over.strength, UNIT);
    assert_eq!(over.kick_step(&parameters).forward, 60_000);
}

#[test]
fn kick_variants_direct_the_displacement() {
    let parameters = default_parameters();
    let turn_left = KickState::new(KickVariant::Turn, Side::Left, 1_000_000);
    assert_eq!(
        turn_left.kick_step(&parameters),
        Step {
            forward: 0,
            left: 0,
            turn: 60_000
        }
    );
    let turn_right = KickState::new(KickVariant::Turn, Side::Right, 1_000_000);
    assert_eq!(turn_right.kick_step(&parameters).turn, -60_000);
    let side_left = KickState::new(KickVariant::Side, Side::Left, 1_000_000);
    assert_eq!(side_left.kick_step(&parameters).left, -60_000);
    let side_right = KickState::new(KickVariant::Side, Side::Right, 1_000_000);
    assert_eq!(side_right.kick_step(&parameters).left, 60_000);
}

#[test]
fn should_catch_fires_outside_the_widened_polygon() {
    let context = default_context();
    let feet = neutral_feet();
    assert!(!should_catch(&context, feet, Side::Left));
    let mut far_forward = context;
    far_forward.center_of_mass = CenterOfMass {
        forward: 100_001,
        left: 0,
    };
    assert!(should_catch(&far_forward, feet, Side::Left));
    let mut at_edge = context;
    at_edge.center_of_mass = CenterOfMass {
        forward: 100_000,
        left: 0,
    };
    assert!(!should_catch(&at_edge, feet, Side::Left));
    let mut far_left = context;
    far_left.center_of_mass = CenterOfMass {
        forward: 0,
        left: 150_001,
    };
    assert!(should_catch(&far_left, feet, Side::Left));
}

#[test]
fn end_feet_realize_the_requested_displacement() {
    let context = default_context();
    let step = Step {
        forward: 60_001,
        left: 20_000,
        turn: 9,
    };
    let plan = StepPlan::new_from_request(&context, step, Side::Left);
    let end = plan.end_feet;
    assert_eq!(end.swing_sole.forward - end.support_sole.forward, 60_001);
    assert_eq!(end.support_sole.forward, -30_000);
    assert_eq!(end.swing_sole.forward, 30_001);
    assert_eq!(end.support_sole.left, -10_000 + 50_000);
    assert_eq!(end.swing_sole.left, 10_000 - 50_000);
    assert_eq!(end.swing_sole.turn - end.support_sole.turn, 9);
}

#[test]
fn feet_interpolate_linearly_and_hold_the_end_pose() {
    let context = default_context();
    let step = Step {
        forward: 100_000,
        left: 0,
        turn: 0,
    };
    let plan = StepPlan::new_from_request(&context, step, Side::Left);
    let mut state = StepState::new(plan);
    let start = state.compute_feet(&context);
    assert_eq!(start, context.measured_feet);
    state.elapsed = 125_000;
    let halfway = state.compute_feet(&context);
    assert_eq!(halfway.swing_sole.forward, 25_000);
    assert_eq!(halfway.support_sole.forward, -25_000);
    state.elapsed = 250_000;
    let done = state.compute_feet(&context);
    assert_eq!(done, plan.end_feet);
    state.elapsed = 999_999_999;
    let held = state.compute_feet(&context);
    assert_eq!(held, plan.end_feet);
}

#[test]
fn tick_accumulates_cycle_durations() {
    let context = default_context();
    let mut state = StepState::new(StepPlan::new_from_request(&context, Step::zero(), Side::Left));
    state.tick(&context);
    state.tick(&context);
    assert_eq!(state.elapsed, 24_000);
}

#[test]
fn commands_carry_the_configured_stiffness() {
    let context = default_context();
    let mut walking = walking_at(&context, Side::Left, 0);
    let commands: MotorCommands = walking.compute_commands(&context);
    assert_eq!(commands.stiffnesses.left_leg.knee_pitch, 800_000);
    assert_eq!(commands.stiffnesses.right_leg.hip_roll, 800_000);
    assert_eq!(commands.stiffnesses.left_arm.shoulder_pitch, 500_000);
    assert_eq!(commands.stiffnesses.right_arm.elbow_yaw, 500_000);
}

#[test]
fn commands_place_the_measured_feet_at_start() {
    let context = default_context();
    let mut walking = walking_at(&context, Side::Left, 0);
    let commands = walking.compute_commands(&context);
    assert_eq!(commands.positions.left_leg.hip_roll, 50_000);
    assert_eq!(commands.positions.left_leg.hip_pitch, 0);
    assert_eq!(commands.positions.right_leg.hip_roll, -50_000);
    assert_eq!(commands.positions.right_leg.ankle_roll, 50_000);
}

#[test]
fn engine_seeds_walking_with_a_neutral_step() {
    let context = default_context();
    let engine = Engine::new(&context, Side::Left);
    match engine.mode {
        Mode::Walking(w) => {
            assert_eq!(w.requested_step, Step::zero());
            assert_eq!(w.step.plan.support_side, Side::Left);
        }
        _ => panic!("expected the seeded mode to walk in place"),
    }
}

#[test]
fn engine_cycle_ticks_and_reports_safe_exit() {
    let context = default_context();
    let mut engine = Engine::new(&context, Side::Left);
    let (_, safe_exit) = engine.cycle(
        &context,
        WalkRequest::Walk(Step {
            forward: 10_000,
            left: 0,
            turn: 0,
        }),
    );
    assert!(!safe_exit);
    match engine.mode {
        Mode::Walking(w) => assert_eq!(w.step.elapsed, 12_000),
        _ => panic!("expected to keep walking"),
    }
    let mut at_switch = context;
    at_switch.ground_contact = true;
    engine.mode = Mode::Walking(walking_at(&at_switch, Side::Left, 250_000));
    let (_, stopped) = engine.cycle(&at_switch, WalkRequest::Stand);
    assert!(stopped);
    assert_eq!(
        engine.mode,
        Mode::Stopping(Stopping {
            support_side: Side::Right
        })
    );
}

#[test]
fn engine_cycle_applies_kick_requests() {
    let mut context = default_context();
    context.ground_contact = true;
    let mut engine = Engine::new(&context, Side::Right);
    engine.mode = Mode::Walking(walking_at(&context, Side::Right, 250_000));
    let (_, safe_exit) = engine.cycle(
        &context,
        WalkRequest::Kick(KickVariant::Forward, Side::Left, 700_000),
    );
    assert!(!safe_exit);
    match engine.mode {
        Mode::Kicking(kicking) => {
            assert_eq!(kicking.kick.strength, 700_000);
            assert_eq!(kicking.support_side, Side::Left);
            assert_eq!(kicking.step.elapsed, 12_000);
        }
        _ => panic!("expected the kick to begin"),
    }
}

#[test]
fn new_with_step_resumes_the_given_state() {
    let context = default_context();
    let walking = walking_at(&context, Side::Left, 42);
    let resumed = Walking::new_with_step(
        walking.step,
        Step {
            forward: 11,
            left: 22,
            turn: 33,
        },
    );
    assert_eq!(resumed.step, walking.step);
    assert_eq!(
        resumed.requested_step,
        Step {
            forward: 11,
            left: 22,
            turn: 33
        }
    );
}

#[test]
fn stopping_commands_hold_the_neutral_stance() {
    let context = default_context();
    let stopping = Stopping {
        support_side: Side::Left,
    };
    let commands = stopping.compute_commands(&context);
    assert_eq!(commands.positions.left_leg.hip_pitch, 0);
    assert_eq!(commands.positions.left_leg.hip_roll, 50_000);
    assert_eq!(commands.positions.right_leg.hip_roll, -50_000);
    assert_eq!(commands.stiffnesses.left_leg.hip_pitch, 800_000);
}

#[test]
fn swing_foot_advances_monotonically_in_phase() {
    let context = default_context();
    let step = Step {
        forward: 77_777,
        left: -31_000,
        turn: 5_001,
    };
    let plan = StepPlan::new_from_request(&context, step, Side::Right);
    let mut state = StepState::new(plan);
    let mut previous = state.compute_feet(&context).swing_sole.forward;
    for elapsed in (0..=250_000).step_by(10_000) {
        state.elapsed = elapsed;
        let now = state.compute_feet(&context).swing_sole.forward;
        assert!(now >= previous);
        previous = now;
    }
    assert_eq!(previous, plan.end_feet.swing_sole.forward);
}

#[test]
fn engine_alternates_support_sides_across_steps() {
    let context = default_context();
    let mut engine = Engine::new(&context, Side::Left);
    let request = WalkRequest::Walk(Step {
        forward: 50_000,
        left: 0,
        turn: 0,
    });
    let mut sides: Vec<Side> = Vec::new();
    for cycle in 0..63 {
        let mut sensed = context;
        sensed.ground_contact = cycle % 21 == 20;
        engine.cycle(&sensed, request);
        match engine.mode {
            Mode::Walking(w) => sides.push(w.step.plan.support_side),
            _ => panic!("expected walking throughout"),
        }
    }
    assert_eq!(sides[0], Side::Left);
    assert_eq!(sides[40], Side::Left);
    assert_eq!(sides[41], Side::Right);
    assert_eq!(sides[61], Side::Right);
    assert_eq!(sides[62], Side::Left);
    for cycle in 0..62 {
        let toggled = sides[cycle + 1] != sides[cycle];
        let switch_cycle = cycle + 1 == 41 || cycle + 1 == 62;
        assert_eq!(toggled, switch_cycle);
    }
}

#[test]
fn support_side_never_toggles_without_switch_or_timeout() {
    let context = default_context();
    let mut walking = walking_at(&context, Side::Left, 0);
    for _ in 0..100 {
        let next = walking.walk(
            &context,
            Step {
                forward: 30_000,
                left: 0,
                turn: 0,
            },
        );
        match next {
            Mode::Walking(w) => {
                assert_eq!(w.step.plan.support_side, Side::Left);
                walking = w;
            }
            _ => panic!("expected walking to continue"),
        }
    }
}
