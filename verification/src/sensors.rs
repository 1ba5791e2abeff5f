//! Sensor reading outcomes and the staleness projector.
//!
//! A sensor read either produces a temperature or one of the typed failures
//! below.  When a stored reading is older than the current tick, the
//! projector computes the worst-case temperature the component could have
//! reached since, assuming it warmed at the channel's maximum slew rate the
//! whole time.

use vstd::arithmetic::div_mod::{
    lemma_div_is_ordered, lemma_div_nonincreasing, lemma_div_pos_is_pos,
};
use vstd::arithmetic::mul::lemma_mul_inequality;
use vstd::prelude::*;

use crate::units::{Temperature, SLEW_LIMIT, TEMP_LIMIT, TIME_LIMIT};

verus! {

/// Bus code reported when no device acknowledges at the expected address;
/// for a removable channel this means "legitimately absent" rather than a
/// fault.
pub const BUS_CODE_NO_DEVICE: u32 = 1;

/// Why a temperature could not be read from a sensor.
#[derive(Copy, Clone, Debug, PartialEq, Eq, Structural)]
pub enum SensorReadError {
    /// Transport-level failure; carries the underlying bus code.
    BusError(u32),
    /// The sensor reports that no valid data is available yet.
    NoData,
    /// The sensor reports an internal fault.
    SensorFailure,
    /// The decoded value falls in a range the datasheet reserves, so it is
    /// not a temperature.
    ReservedValue,
    /// The reply was structurally incorrect: wrong length, bad checksum.
    CorruptReply,
}

impl SensorReadError {
    /// True for the one failure that means the device is absent, which a
    /// removable channel treats as "intentionally not sampled".
    pub open spec fn spec_indicates_not_present(self) -> bool {
        self == SensorReadError::BusError(BUS_CODE_NO_DEVICE)
    }

    /// Executable form of `spec_indicates_not_present`.
    pub fn indicates_not_present(&self) -> (not_present: bool)
        ensures
            not_present == self.spec_indicates_not_present(),
    {
        match self {
            SensorReadError::BusError(code) => *code == BUS_CODE_NO_DEVICE,
            _ => false,
        }
    }
}

/// Reason forwarded to the telemetry sink when no value is available for a
/// logical sensor.
#[derive(Copy, Clone, Debug, PartialEq, Eq, Structural)]
pub enum NoDataReason {
    /// The input is not sampled in the current power mode.
    DeviceOff,
    /// No device acknowledged at the expected address.
    DeviceNotPresent,
    /// Any other read failure.
    DeviceError,
}

/// The reason reported for a failed read.
pub open spec fn spec_no_data_reason(error: SensorReadError) -> NoDataReason {
    if error.spec_indicates_not_present() {
        NoDataReason::DeviceNotPresent
    } else {
        NoDataReason::DeviceError
    }
}

/// Maps a read failure to the reason the telemetry sink is told.
pub fn no_data_reason(error: SensorReadError) -> (reason: NoDataReason)
    ensures
        reason == spec_no_data_reason(error),
{
    if error.indicates_not_present() {
        NoDataReason::DeviceNotPresent
    } else {
        NoDataReason::DeviceError
    }
}

/// What the orchestrator forwards to the telemetry sink for one input.
#[derive(Copy, Clone, Debug, PartialEq, Eq, Structural)]
pub enum SensorEvent {
    /// A fresh reading was taken and posted.
    Reading(Temperature),
    /// No value; the sink is told why.
    NoData(NoDataReason),
}

/// Worst-case temperature of a component whose last reading `value` was
/// taken at `time_ms`: the reading plus the distance it could have slewed in
/// the `now_ms - time_ms` elapsed milliseconds at `slew` thousandths of a
/// degree per second.  When the reading is fresh (`now_ms == time_ms`) this
/// is the raw value.
pub open spec fn projected(value: int, time_ms: int, slew: int, now_ms: int) -> int {
    value + (now_ms - time_ms) * slew / 1000
}

/// Largest distance a projection can move away from its reading: the worst
/// slew sustained for the longest representable time.
pub open spec fn projection_delta_limit() -> int {
    TIME_LIMIT as int * SLEW_LIMIT as int / 1000
}

/// Computes the worst-case current temperature from a stored reading
/// (staleness projector).  Pure; no error path.
pub fn project_temperature(value: Temperature, time_ms: u64, slew: u64, now_ms: u64) -> (t: i64)
    requires
        value.in_range(),
        time_ms <= now_ms <= TIME_LIMIT,
        slew <= SLEW_LIMIT,
    ensures
        t == projected(value.0 as int, time_ms as int, slew as int, now_ms as int),
        value.0 <= t <= value.0 + projection_delta_limit(),
{
    let elapsed = now_ms - time_ms;
    proof {
        lemma_mul_inequality(elapsed as int, TIME_LIMIT as int, slew as int);
        lemma_mul_inequality(slew as int, SLEW_LIMIT as int, TIME_LIMIT as int);
        assert(TIME_LIMIT as int * slew as int == slew as int * TIME_LIMIT as int)
            by (nonlinear_arith);
        assert(elapsed as int * slew as int >= 0) by (nonlinear_arith)
            requires
                elapsed >= 0,
                slew >= 0,
        ;
    }
    let slewed = elapsed * slew;
    let delta = slewed / 1000;
    proof {
        lemma_div_pos_is_pos(slewed as int, 1000);
        lemma_div_is_ordered(
            slewed as int,
            TIME_LIMIT as int * SLEW_LIMIT as int,
            1000,
        );
    }
    value.0 + (delta as i64)
}

/// Staleness projection is monotonic: with a non-negative slew rate, waiting
/// longer never lowers the worst-case temperature.
pub proof fn lemma_projection_monotonic(
    value: int,
    time_ms: int,
    slew: int,
    early_ms: int,
    late_ms: int,
)
    requires
        0 <= slew,
        time_ms <= early_ms <= late_ms,
    ensures
        projected(value, time_ms, slew, early_ms) <= projected(value, time_ms, slew, late_ms),
{
    lemma_mul_inequality(early_ms - time_ms, late_ms - time_ms, slew);
    lemma_div_is_ordered((early_ms - time_ms) * slew, (late_ms - time_ms) * slew, 1000);
}

/// A projection over zero elapsed time is the raw reading.
pub proof fn lemma_projection_fresh(value: int, time_ms: int, slew: int)
    ensures
        projected(value, time_ms, slew, time_ms) == value,
{
    assert((time_ms - time_ms) * slew == 0) by (nonlinear_arith);
}

/// A projection with a non-negative slew rate never falls below the raw
/// reading.
pub proof fn lemma_projection_pessimistic(value: int, time_ms: int, slew: int, now_ms: int)
    requires
        0 <= slew,
        time_ms <= now_ms,
    ensures
        value <= projected(value, time_ms, slew, now_ms),
{
    assert(0 <= (now_ms - time_ms) * slew) by (nonlinear_arith)
        requires
            0 <= slew && time_ms <= now_ms,
    ;
    lemma_div_pos_is_pos((now_ms - time_ms) * slew, 1000);
}

} // verus!
