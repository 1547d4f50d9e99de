//! GPIO output lines. A line is either backed by a character-device handle
//! of the kernel GPIO interface, or a stub that records levels without
//! hardware, so the rest of the rig can run and be tested hardware-free.
//!
//! The model tracks the last commanded logic level and the number of rising
//! edges driven, which is what the motion engine's pulse-count contracts
//! are stated over.

use vstd::prelude::*;

verus! {

/// A hardware fault while driving a GPIO line. Fatal to the in-flight
/// operation: the caller aborts and must not trust timing-derived position
/// past this point.
#[derive(Clone, Copy, Debug, PartialEq, Eq, Structural)]
pub struct HwError;

#[verifier::external_type_specification]
#[verifier::external_body]
pub struct ExLineHandle(gpio_cdev::LineHandle);

#[verifier::external_type_specification]
#[verifier::external_body]
pub struct ExGpioError(gpio_cdev::Error);

/// Relies on gpio_cdev::LineHandle::set_value: drives the requested output
/// line to the given logic level, or reports the kernel's error.
#[verifier::external_body]
fn line_set_value(handle: &gpio_cdev::LineHandle, value: u8) -> Result<(), gpio_cdev::Error> {
    handle.set_value(value)
}

/// Relies on async_std::task::sleep, run to completion with
/// async_std::task::block_on: suspends the calling task for at least the
/// given number of microseconds. Pulse timing is best-effort (soft real
/// time); only pulse counts are relied on, never exact edge times.
#[verifier::external_body]
pub(crate) fn pause_micros(us: u64) {
    async_std::task::block_on(async_std::task::sleep(core::time::Duration::from_micros(us)))
}

/// Which GPIO line a component drives: the character device of the chip
/// and the line offset on it. Pure configuration data; the opened line is
/// an `OutputLine`.
#[derive(Clone, Debug)]
pub struct LocalGpioConfig {
    pub chip: String,
    pub line: u32,
}

impl Default for LocalGpioConfig {
    /// The first line of the first GPIO chip.
    fn default() -> (d: LocalGpioConfig)
        ensures
            d.chip@ == "/dev/gpiochip0"@,
            d.line == 0,
    {
        LocalGpioConfig { chip: "/dev/gpiochip0".to_owned(), line: 0 }
    }
}

/// Where an output line drives its edges: a kernel GPIO handle, or nothing.
pub enum LinePort {
    Cdev(gpio_cdev::LineHandle),
    Stub,
}

/// An output line owned exclusively by the component that configured it.
/// `level` is the last successfully commanded logic level; `rises` counts
/// the low-to-high transitions successfully driven (the emitted pulses).
pub struct OutputLine {
    pub port: LinePort,
    pub level: bool,
    pub rises: u64,
}

impl OutputLine {
    /// A stub line: no hardware, level starts low.
    pub fn stub() -> (line: OutputLine)
        ensures
            line.level == false,
            line.rises == 0,
            line.port is Stub,
    {
        OutputLine { port: LinePort::Stub, level: false, rises: 0 }
    }

    /// Wraps an already requested kernel line whose current output level is
    /// `level` (lines are requested with a known initial level).
    pub fn from_handle(handle: gpio_cdev::LineHandle, level: bool) -> (line: OutputLine)
        ensures
            line.level == level,
            line.rises == 0,
            line.port is Cdev,
    {
        OutputLine { port: LinePort::Cdev(handle), level, rises: 0 }
    }

    /// Drives the line to `high`. On success the commanded level is updated
    /// and a low-to-high transition is counted as one rising edge; on a
    /// hardware fault nothing is recorded as driven.
    pub fn set_level(&mut self, high: bool) -> (r: Result<(), HwError>)
        requires
            high && !old(self).level ==> old(self).rises < u64::MAX,
        ensures
            old(self).port is Stub ==> r is Ok,
            r is Ok ==> final(self).level == high,
            r is Err ==> final(self).level == old(self).level,
            final(self).rises == if r is Ok && high && !old(self).level {
                old(self).rises + 1
            } else {
                old(self).rises as int
            },
            final(self).port == old(self).port,
    {
        let driven = match &self.port {
            LinePort::Cdev(handle) => match line_set_value(handle, if high { 1u8 } else { 0u8 }) {
                Ok(_) => true,
                Err(_) => false,
            },
            LinePort::Stub => true,
        };
        if driven {
            if high && !self.level {
                self.rises = self.rises + 1;
            }
            self.level = high;
            Ok(())
        } else {
            Err(HwError)
        }
    }

    /// Drives the line high.
    pub fn set_high(&mut self) -> (r: Result<(), HwError>)
        requires
            !old(self).level ==> old(self).rises < u64::MAX,
        ensures
            old(self).port is Stub ==> r is Ok,
            r is Ok ==> final(self).level == true,
            r is Err ==> final(self).level == old(self).level,
            final(self).rises == if r is Ok && !old(self).level {
                old(self).rises + 1
            } else {
                old(self).rises as int
            },
            final(self).port == old(self).port,
    {
        self.set_level(true)
    }

    /// Drives the line low.
    pub fn set_low(&mut self) -> (r: Result<(), HwError>)
        ensures
            old(self).port is Stub ==> r is Ok,
            r is Ok ==> final(self).level == false,
            r is Err ==> final(self).level == old(self).level,
            final(self).rises == old(self).rises,
            final(self).port == old(self).port,
    {
        self.set_level(false)
    }
}

} // verus!
