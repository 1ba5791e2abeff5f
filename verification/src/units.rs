//! Scalar units used throughout the thermal core.
//!
//! Temperatures are stored in thousandths of a degree so that the control
//! arithmetic is exact; the bounds below keep every intermediate product of
//! the controller inside `i64`.

use vstd::prelude::*;

verus! {

/// Largest magnitude, in thousandths of a degree, accepted for a configured
/// threshold or a sensor reading (one million degrees).
pub const TEMP_LIMIT: i64 = 1_000_000_000;

/// Largest accepted slew rate, in thousandths of a degree per second
/// (one thousand degrees per second).
pub const SLEW_LIMIT: u64 = 1_000_000;

/// Largest accepted tick time, in milliseconds (about 279 years of uptime).
/// `TIME_LIMIT * SLEW_LIMIT` stays below `u64::MAX`, so a worst-case
/// projection never overflows.
pub const TIME_LIMIT: u64 = 0x7FF_FFFF_FFFF;

/// Largest accepted target margin, in thousandths of a degree.
pub const MARGIN_LIMIT: i64 = 1_000_000_000;

/// Worst margin reported when no input is active.  It exceeds any margin a
/// real input can produce (those stay within twice `TEMP_LIMIT`), so an
/// input-free system demands no cooling from the controller.
pub const NO_INPUT_MARGIN: i64 = 4_000_000_000;

/// Largest PWM duty cycle, in percent.
pub const PWM_MAX: u8 = 100;

/// Largest PWM duty cycle in the controller's output unit
/// (millionths of a percent).
pub const PWM_MAX_MICRO: i64 = 100_000_000;

/// A temperature in thousandths of a degree.
#[derive(Copy, Clone, Debug, PartialEq, Eq, Structural)]
pub struct Temperature(pub i64);

impl Temperature {
    /// True when the value is within the range the control core accepts.
    pub open spec fn in_range(self) -> bool {
        -TEMP_LIMIT <= self.0 <= TEMP_LIMIT
    }
}

/// A fan PWM duty cycle in percent, in `0 ..= PWM_MAX`.
#[derive(Copy, Clone, Debug, PartialEq, Eq, Structural)]
pub struct PWMDuty(pub u8);

/// A measured fan speed, in revolutions per minute.
#[derive(Copy, Clone, Debug, PartialEq, Eq, Structural)]
pub struct Rpm(pub u16);

/// Identifies one fan of the group driven by the control loop.
#[derive(Copy, Clone, Debug, PartialEq, Eq, Structural)]
pub struct Fan(pub u8);

} // verus!
