//! The watering capability: what the orchestrator needs from a valve,
//! with a stub implementation for hardware-free runs.

use vstd::prelude::*;

use crate::actuator::WateringConfig;
use crate::gpio::{pause_micros, HwError};

verus! {

/// A watering valve: opens for the asked duration, then closes.
pub trait WaterIf {
    /// Whether the valve can accept one more watering.
    spec fn ready(&self) -> bool;

    /// What a completed watering means for the implementation: the valve
    /// rests closed as far as the implementation tracks it.
    spec fn idle(&self) -> bool;

    /// Opens the valve for `dur_secs` seconds, then closes it; on success
    /// the valve rests closed.
    fn water(&mut self, dur_secs: u64) -> (r: Result<(), HwError>)
        requires
            old(self).ready(),
            dur_secs <= 1_000_000,
        ensures
            r is Ok ==> final(self).idle(),
    ;
}

/// A valve that only waits: for runs without hardware.
pub struct DummyWater;

impl WaterIf for DummyWater {
    open spec fn ready(&self) -> bool {
        true
    }

    open spec fn idle(&self) -> bool {
        true
    }

    fn water(&mut self, dur_secs: u64) -> (r: Result<(), HwError>) {
        pause_micros(dur_secs * 1_000_000);
        Ok(())
    }
}

impl WaterIf for WateringConfig {
    open spec fn ready(&self) -> bool {
        self.pin.rises < u64::MAX
    }

    open spec fn idle(&self) -> bool {
        self.pin.level == false
    }

    fn water(&mut self, dur_secs: u64) -> (r: Result<(), HwError>) {
        WateringConfig::water(self, dur_secs)
    }
}

} // verus!
