use plantrig::actuator::{ActuatorProfile, WateringConfig};
use plantrig::gpio::OutputLine;
use plantrig::linears::{DummyLinear2D, Linear2D};
use plantrig::motion::StepperLinear;
use plantrig::water::{DummyWater, WaterIf};

fn stub_actuator() -> ActuatorProfile {
    let x = StepperLinear::new(OutputLine::stub(), OutputLine::stub(), false, 100, 200, 50, 2);
    let y = StepperLinear::new(OutputLine::stub(), OutputLine::stub(), false, 100, 200, 50, 2);
    ActuatorProfile::new(
        OutputLine::stub(),
        x,
        y,
        WateringConfig { pin: OutputLine::stub() },
    )
}

#[test]
fn goto_away_from_origin_keeps_drivers_powered() {
    let mut a = stub_actuator();
    assert_eq!(a.goto(3, 4), Ok(()));
    assert_eq!(a.linear_x.position, 3);
    assert_eq!(a.linear_y.position, 4);
    // The power-down line is never asserted away from the origin.
    assert!(!a.en_pin.level);
}

#[test]
fn goto_back_to_origin_powers_drivers_down() {
    let mut a = stub_actuator();
    assert_eq!(a.goto(3, 4), Ok(()));
    assert_eq!(a.goto(0, 0), Ok(()));
    assert_eq!(a.linear_x.position, 0);
    assert_eq!(a.linear_y.position, 0);
    assert!(a.en_pin.level);
}

#[test]
fn goto_counts_pulses_on_both_axes() {
    let mut a = stub_actuator();
    assert_eq!(a.goto(2, 5), Ok(()));
    // 2 mm and 5 mm at 2 steps per mm.
    assert_eq!(a.linear_x.step_pin.rises, 4);
    assert_eq!(a.linear_y.step_pin.rises, 10);
}

#[test]
fn goto_to_current_position_emits_nothing() {
    let mut a = stub_actuator();
    assert_eq!(a.goto(2, 2), Ok(()));
    let x_rises = a.linear_x.step_pin.rises;
    let y_rises = a.linear_y.step_pin.rises;
    assert_eq!(a.goto(2, 2), Ok(()));
    assert_eq!(a.linear_x.step_pin.rises, x_rises);
    assert_eq!(a.linear_y.step_pin.rises, y_rises);
}

#[test]
fn water_at_moves_then_cycles_the_valve() {
    let mut a = stub_actuator();
    assert_eq!(a.water_at(1, 2, 0), Ok(()));
    assert_eq!(a.linear_x.position, 1);
    assert_eq!(a.linear_y.position, 2);
    // The valve opened once and is closed again.
    assert_eq!(a.watering.pin.rises, 1);
    assert!(!a.watering.pin.level);
}

#[test]
fn stub_capabilities_always_succeed() {
    let mut l = DummyLinear2D;
    assert_eq!(Linear2D::goto(&mut l, 1, 1), Ok(()));
    let mut w = DummyWater;
    assert_eq!(WaterIf::water(&mut w, 0), Ok(()));
}

#[test]
fn actuator_satisfies_the_positioner_capability() {
    let mut a = stub_actuator();
    assert_eq!(Linear2D::goto(&mut a, 2, 3), Ok(()));
    assert_eq!(a.linear_x.position, 2);
    assert_eq!(a.linear_y.position, 3);
}

#[test]
fn valve_cycles_once_per_watering() {
    let mut w = WateringConfig { pin: OutputLine::stub() };
    assert_eq!(w.water(0), Ok(()));
    assert_eq!(w.water(0), Ok(()));
    assert_eq!(w.pin.rises, 2);
    assert!(!w.pin.level);
}
