//! Compound actuator: two stepper axes, one watering valve, one
//! driver-enable line, coordinated as atomic operations.
//!
//! The enable line powers the stepper drivers down when driven high. The
//! central safety rule is that it is asserted only while both axes are at
//! rest at the origin, so holding torque is never lost mid-grid.
//!
//! The operations take `&mut self`, so Rust's exclusive borrows are the
//! mutual-exclusion token: no two operations can drive the hardware at the
//! same time. Callers that share the actuator between concurrent logical
//! requests put it behind one lock and queue behind that single owner.

use vstd::prelude::*;

use crate::gpio::{pause_micros, HwError, OutputLine};
use crate::motion::{spec_steps_between, StepperLinear};

verus! {

/// The watering valve: asserting its line opens the valve.
pub struct WateringConfig {
    pub pin: OutputLine,
}

impl WateringConfig {
    /// Opens the valve for exactly `dur_secs` seconds, then closes it: on
    /// success the line rose exactly once (from a closed valve) and ends
    /// de-asserted. A hardware fault aborts; the valve line is then not
    /// trusted and the error is surfaced to the caller.
    pub fn water(&mut self, dur_secs: u64) -> (r: Result<(), HwError>)
        requires
            old(self).pin.rises < u64::MAX,
            dur_secs <= 1_000_000,
        ensures
            old(self).pin.port is Stub ==> r is Ok,
            final(self).pin.port == old(self).pin.port,
            r is Ok ==> final(self).pin.level == false,
            r is Ok ==> final(self).pin.rises == old(self).pin.rises + (
            if old(self).pin.level {
                0int
            } else {
                1int
            }),
            old(self).pin.rises <= final(self).pin.rises <= old(self).pin.rises + 1,
    {
        match self.pin.set_level(true) {
            Ok(_) => {},
            Err(e) => {
                return Err(e);
            },
        }
        pause_micros(dur_secs * 1_000_000);
        match self.pin.set_level(false) {
            Ok(_) => {},
            Err(e) => {
                return Err(e);
            },
        }
        Ok(())
    }
}

/// The compound actuator state: the two motion axes, the shared
/// driver-enable line and the watering valve.
pub struct ActuatorProfile {
    pub en_pin: OutputLine,
    pub linear_x: StepperLinear,
    pub linear_y: StepperLinear,
    pub watering: WateringConfig,
}

impl ActuatorProfile {
    /// The power-down (enable) line is asserted only when both axes are at
    /// rest at the origin.
    pub open spec fn enable_safe(self) -> bool {
        self.en_pin.level ==> self.linear_x.position == 0 && self.linear_y.position == 0
    }

    /// Well-formedness: both axes keep their profile invariants and the
    /// enable line obeys the origin rule.
    pub open spec fn wf(self) -> bool {
        &&& self.linear_x.wf()
        &&& self.linear_y.wf()
        &&& self.enable_safe()
    }

    /// Whether every motion-side line (both axes and the enable line) is a
    /// stub: then no outside call can fail a move.
    pub open spec fn all_motion_stub(self) -> bool {
        &&& self.en_pin.port is Stub
        &&& self.linear_x.dir_pin.port is Stub
        &&& self.linear_x.step_pin.port is Stub
        &&& self.linear_y.dir_pin.port is Stub
        &&& self.linear_y.step_pin.port is Stub
    }

    /// Rise-counter headroom needed before one more compound operation.
    pub open spec fn headroom(self) -> bool {
        &&& self.linear_x.step_pin.rises <= u64::MAX - 2_000_000_000
        &&& self.linear_y.step_pin.rises <= u64::MAX - 2_000_000_000
        &&& self.linear_x.dir_pin.rises < u64::MAX - 1
        &&& self.linear_y.dir_pin.rises < u64::MAX - 1
        &&& self.en_pin.rises < u64::MAX
        &&& self.watering.pin.rises < u64::MAX
    }

    /// The parts of the actuator a move never changes.
    pub open spec fn same_config(self, other: ActuatorProfile) -> bool {
        &&& self.linear_x.same_config(other.linear_x)
        &&& self.linear_y.same_config(other.linear_y)
        &&& self.en_pin.port == other.en_pin.port
        &&& self.watering.pin.port == other.watering.pin.port
    }

    /// The enable-line law: a well-formed actuator that asserts the
    /// power-down line has both axes at rest at the origin. Every
    /// operation requires and preserves well-formedness, so this holds at
    /// every operation end.
    pub proof fn lemma_enable_only_at_origin(a: ActuatorProfile)
        requires
            a.wf(),
            a.en_pin.level,
        ensures
            a.linear_x.position == 0,
            a.linear_y.position == 0,
    {
    }

    /// Builds the compound actuator from its four capabilities, with both
    /// axes homed at the origin.
    pub fn new(
        en_pin: OutputLine,
        linear_x: StepperLinear,
        linear_y: StepperLinear,
        watering: WateringConfig,
    ) -> (a: ActuatorProfile)
        requires
            linear_x.wf(),
            linear_y.wf(),
            en_pin.level ==> linear_x.position == 0 && linear_y.position == 0,
        ensures
            a.wf(),
            a.en_pin == en_pin,
            a.linear_x == linear_x,
            a.linear_y == linear_y,
            a.watering == watering,
    {
        ActuatorProfile { en_pin, linear_x, linear_y, watering }
    }

    /// Moves the head to `(x, y)`: powers the drivers up (unless the move
    /// stays at the origin), drives both axes to completion — a failure on
    /// one axis does not cancel the other — and powers the drivers down
    /// only when the new position is exactly the origin. Each axis records
    /// its new position only if its own move completed.
    pub fn goto(&mut self, x: u32, y: u32) -> (r: Result<(), HwError>)
        requires
            old(self).wf(),
            old(self).headroom(),
            x <= 1_000,
            y <= 1_000,
        ensures
            old(self).all_motion_stub() ==> r is Ok,
            final(self).wf(),
            final(self).same_config(*old(self)),
            final(self).watering == old(self).watering,
            r is Ok ==> final(self).linear_x.position == x as i32 && final(self).linear_y.position
                == y as i32,
            r is Ok ==> final(self).en_pin.level == (x == 0 && y == 0),
            r is Ok ==> final(self).linear_x.step_pin.rises == old(self).linear_x.step_pin.rises
                + spec_steps_between(
                old(self).linear_x.position,
                x as i32,
                old(self).linear_x.steps_per_mm,
            ),
            r is Ok ==> final(self).linear_y.step_pin.rises == old(self).linear_y.step_pin.rises
                + spec_steps_between(
                old(self).linear_y.position,
                y as i32,
                old(self).linear_y.steps_per_mm,
            ),
            final(self).linear_x.position == old(self).linear_x.position || final(self).linear_x.position == x as i32,
            final(self).linear_y.position == old(self).linear_y.position || final(self).linear_y.position == y as i32,
    {
        if x != 0 || y != 0 {
            match self.en_pin.set_level(false) {
                Ok(_) => {},
                Err(e) => {
                    return Err(e);
                },
            }
        }
        let rx = self.linear_x.goto(x as i32);
        let ry = self.linear_y.goto(y as i32);
        let x_ok = match rx {
            Ok(_) => true,
            Err(_) => false,
        };
        let y_ok = match ry {
            Ok(_) => true,
            Err(_) => false,
        };
        if !x_ok || !y_ok {
            return Err(HwError);
        }
        if x == 0 && y == 0 {
            match self.en_pin.set_level(true) {
                Ok(_) => {},
                Err(e) => {
                    return Err(e);
                },
            }
        }
        Ok(())
    }

    /// Moves to `(x, y)` and then opens the watering valve for exactly
    /// `dur_secs` seconds. Any failure in the move aborts before the valve
    /// is opened.
    pub fn water_at(&mut self, x: u32, y: u32, dur_secs: u64) -> (r: Result<(), HwError>)
        requires
            old(self).wf(),
            old(self).headroom(),
            x <= 1_000,
            y <= 1_000,
            dur_secs <= 1_000_000,
        ensures
            old(self).all_motion_stub() && old(self).watering.pin.port is Stub ==> r is Ok,
            final(self).wf(),
            final(self).same_config(*old(self)),
            r is Ok ==> final(self).linear_x.position == x as i32 && final(self).linear_y.position
                == y as i32,
            r is Ok ==> final(self).watering.pin.level == false,
            r is Ok ==> final(self).watering.pin.rises == old(self).watering.pin.rises + (
            if old(self).watering.pin.level {
                0int
            } else {
                1int
            }),
            old(self).watering.pin.rises <= final(self).watering.pin.rises <= old(
                self,
            ).watering.pin.rises + 1,
            final(self).linear_x.position != x as i32 || final(self).linear_y.position != y as i32
                ==> final(self).watering == old(self).watering,
    {
        match self.goto(x, y) {
            Ok(_) => {},
            Err(e) => {
                return Err(e);
            },
        }
        match self.watering.water(dur_secs) {
            Ok(_) => {},
            Err(e) => {
                return Err(e);
            },
        }
        Ok(())
    }
}

} // verus!
