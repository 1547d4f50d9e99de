//! The two-axis positioner capability: what the orchestrator needs from
//! the motion hardware, with a stub implementation for hardware-free
//! runs.

use vstd::prelude::*;

use crate::actuator::ActuatorProfile;
use crate::gpio::{pause_micros, HwError};

verus! {

/// A two-axis positioner: drives the head to a grid position, both axes
/// run to completion before it returns.
pub trait Linear2D {
    /// Whether the positioner can accept one more move.
    spec fn ready(&self) -> bool;

    /// What a completed move means for the implementation: the head
    /// stands at `(x, y)` as far as the implementation tracks it.
    spec fn at(&self, x: u32, y: u32) -> bool;

    /// Drives the head to `(x, y)`; on success the head stands there.
    fn goto(&mut self, x: u32, y: u32) -> (r: Result<(), HwError>)
        requires
            old(self).ready(),
            x <= 1_000,
            y <= 1_000,
        ensures
            r is Ok ==> final(self).at(x, y),
    ;
}

/// A positioner that only waits: for runs without hardware.
pub struct DummyLinear2D;

impl Linear2D for DummyLinear2D {
    open spec fn ready(&self) -> bool {
        true
    }

    open spec fn at(&self, x: u32, y: u32) -> bool {
        true
    }

    fn goto(&mut self, _x: u32, _y: u32) -> (r: Result<(), HwError>) {
        pause_micros(2_000_000);
        Ok(())
    }
}

impl Linear2D for ActuatorProfile {
    open spec fn ready(&self) -> bool {
        self.wf() && self.headroom()
    }

    open spec fn at(&self, x: u32, y: u32) -> bool {
        self.linear_x.position == x as i32 && self.linear_y.position == y as i32
    }

    fn goto(&mut self, x: u32, y: u32) -> (r: Result<(), HwError>) {
        ActuatorProfile::goto(self, x, y)
    }
}

} // verus!
