//! Startup configuration records: the monitored positions and the
//! per-axis hardware profile, as plain data. Reading and writing the
//! configuration file is the embedding program's job.

use vstd::prelude::*;

use crate::settings::GpioPin;

verus! {

/// The grid positions the rig monitors at startup.
#[derive(Clone, Debug)]
pub struct Positions {
    pub positions: Vec<[u32; 2]>,
}

impl Default for Positions {
    /// Two stock positions.
    fn default() -> (d: Positions)
        ensures
            d.positions@.len() == 2,
    {
        let mut positions: Vec<[u32; 2]> = Vec::new();
        positions.push([0, 0]);
        positions.push([1, 1]);
        Positions { positions }
    }
}

/// One axis in the startup configuration: direction polarity, its three
/// lines, and the speed profile in millimetre units.
#[derive(Clone, Debug)]
pub struct Linear {
    pub reverse: bool,
    pub en_pin: GpioPin,
    pub step_pin: GpioPin,
    pub dir_pin: GpioPin,
    pub min_mm_per_s: u32,
    pub max_mm_per_s: u32,
    pub accelerate: u32,
    pub step_per_ms: u32,
}

impl Default for Linear {
    /// The stock axis profile.
    fn default() -> (d: Linear)
        ensures
            d.reverse == false,
            d.min_mm_per_s == 5,
            d.max_mm_per_s == 200,
            d.accelerate == 100,
            d.step_per_ms == 40,
    {
        Linear {
            reverse: false,
            en_pin: Default::default(),
            step_pin: Default::default(),
            dir_pin: Default::default(),
            min_mm_per_s: 5,
            max_mm_per_s: 200,
            accelerate: 100,
            step_per_ms: 40,
        }
    }
}

} // verus!
