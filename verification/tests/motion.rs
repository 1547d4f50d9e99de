use plantrig::gpio::OutputLine;
use plantrig::motion::{ramp_profile, LocalLinearConfig, StepperLinear};

fn stub_axis(reversed: bool) -> StepperLinear {
    StepperLinear::new(OutputLine::stub(), OutputLine::stub(), reversed, 100, 200, 50, 2)
}

#[test]
fn ramp_emits_one_sample_per_step() {
    let plan = ramp_profile(1000, 5000, 10, 100);
    assert_eq!(plan.len(), 100);
}

#[test]
fn ramp_zero_steps_is_empty() {
    let plan = ramp_profile(1000, 5000, 10, 0);
    assert!(plan.is_empty());
}

#[test]
fn ramp_stays_clamped_between_min_and_max() {
    let plan = ramp_profile(1000, 2500, 1000, 64);
    assert_eq!(plan.len(), 64);
    for sps in plan.iter() {
        assert!(1000 <= *sps && *sps <= 2500);
    }
    assert_eq!(plan[0], 1000);
}

#[test]
fn ramp_flat_band_stays_constant() {
    let plan = ramp_profile(2000, 2000, 500, 10);
    assert_eq!(plan.len(), 10);
    for sps in plan.iter() {
        assert_eq!(*sps, 2000);
    }
}

#[test]
fn ramp_cadence_with_early_cruise_is_exact() {
    // The maximum is reached after one sample, so the constant-rate burst
    // runs for twice the ramp-up count, and the descent clamps at the
    // minimum.
    let plan = ramp_profile(1000, 1300, 100, 6);
    assert_eq!(plan, vec![1000, 1300, 1300, 1300, 1000, 1000]);
}

#[test]
fn ramp_cadence_of_a_short_move_is_exact() {
    // The half-count is exhausted before the maximum rate: no cruise, and
    // the descent starts from the rate the ramp-up ended at.
    let plan = ramp_profile(1000, 1_000_000, 100, 6);
    assert_eq!(plan, vec![1000, 101000, 101990, 102970, 101999, 101019]);
}

#[test]
fn goto_emits_exactly_the_step_count() {
    let mut axis = stub_axis(false);
    let r = axis.goto(5);
    assert_eq!(r, Ok(5));
    assert_eq!(axis.position, 5);
    // 5 mm at 2 steps per mm.
    assert_eq!(axis.step_pin.rises, 10);
}

#[test]
fn repeated_goto_emits_no_pulses() {
    let mut axis = stub_axis(false);
    assert_eq!(axis.goto(5), Ok(5));
    let rises_after_first = axis.step_pin.rises;
    let r = axis.goto(5);
    assert_eq!(r, Ok(5));
    assert_eq!(axis.step_pin.rises, rises_after_first);
}

#[test]
fn relative_moves_compose() {
    let mut axis = stub_axis(false);
    assert_eq!(axis.move_by(3), Ok(3));
    assert_eq!(axis.move_by(-2), Ok(1));
    assert_eq!(axis.position, 1);
    // 3 mm out plus 2 mm back at 2 steps per mm.
    assert_eq!(axis.step_pin.rises, 10);
}

#[test]
fn direction_line_follows_reversed_polarity() {
    // Forward move, plain polarity: the direction line rests low.
    let mut plain = stub_axis(false);
    assert_eq!(plain.goto(3), Ok(3));
    assert_eq!(plain.dir_pin.level, false);

    // The same move with reversed polarity yields the opposite level.
    let mut reversed = stub_axis(true);
    assert_eq!(reversed.goto(3), Ok(3));
    assert_eq!(reversed.dir_pin.level, true);
}

#[test]
fn backward_move_inverts_the_direction_line() {
    let mut plain = stub_axis(false);
    assert_eq!(plain.goto(3), Ok(3));
    assert_eq!(plain.goto(1), Ok(1));
    assert_eq!(plain.dir_pin.level, true);
    assert_eq!(plain.position, 1);
    // 3 mm out plus 2 mm back at 2 steps per mm.
    assert_eq!(plain.step_pin.rises, 10);
}

#[test]
fn axis_profile_from_config_resumes_position() {
    let mut cfg = LocalLinearConfig::default();
    cfg.position = 7;
    cfg.step_per_mm = 2;
    cfg.min_mm_per_s = 100;
    cfg.max_mm_per_s = 200;
    assert!(cfg.valid());
    let axis = StepperLinear::from_config(&cfg, OutputLine::stub(), OutputLine::stub());
    assert_eq!(axis.position, 7);
    assert_eq!(axis.steps_per_mm, 2);
    assert!(!axis.reversed);
}

#[test]
fn default_axis_profile_is_valid() {
    let cfg = LocalLinearConfig::default();
    assert!(cfg.valid());
    assert_eq!(cfg.limit, 200);
    assert_eq!(cfg.position, 0);
}
