//! The thermal control loop: per-input configuration, the fail-safe state
//! machine, and the per-tick orchestrator.
//!
//! The orchestrator owns exactly one `ThermalControlState`.  Each tick the
//! caller hands it the current time, the current power-mode mask and one
//! read outcome per configured input; it fuses them into the stored
//! snapshot, advances the state machine on worst-case projected
//! temperatures, and answers with either a PWM duty for every fan or a
//! power-down directive.

use vstd::prelude::*;

use crate::pid::{next_integral, run_output, OneSidedPidState, PidConfig, GAIN_LIMIT, ZERO_LIMIT};
use crate::sensors::{
    projected, spec_no_data_reason, NoDataReason, SensorEvent, SensorReadError,
};
use crate::units::{
    Fan, PWMDuty, Temperature, MARGIN_LIMIT, NO_INPUT_MARGIN, PWM_MAX, PWM_MAX_MICRO, SLEW_LIMIT,
    TEMP_LIMIT, TIME_LIMIT,
};

verus! {

/// Default buffer below the critical temperature required before leaving
/// the overheated state, in thousandths of a degree.
pub const DEFAULT_HYSTERESIS: i64 = 1_000;

/// Default time allowed in the overheated state before giving up and
/// powering down, in milliseconds.
pub const DEFAULT_OVERHEAT_TIMEOUT_MS: u64 = 60_000;

/// Errors surfaced to configuration callers.
#[derive(Copy, Clone, Debug, PartialEq, Eq, Structural)]
pub enum ThermalError {
    /// A gain or margin is out of the accepted range.
    InvalidParameter,
    /// A duty cycle above `PWM_MAX` was requested.
    InvalidPWM,
    /// An actuator call failed.
    DeviceError,
}

/// Error reported by a fan actuator; carries the transport's code.
#[derive(Copy, Clone, Debug, PartialEq, Eq, Structural)]
pub struct DeviceError(pub u32);

/// Static thermal properties of one monitored component.
///
/// Well-formed properties satisfy
/// `target < critical < power-down` and a non-negative slew rate.
#[derive(Copy, Clone, Debug, PartialEq, Eq, Structural)]
pub struct ThermalProperties {
    /// Temperature the control loop tries to hold the component at.
    pub target_temperature: Temperature,
    /// At or above this temperature the fans are driven to full power.
    pub critical_temperature: Temperature,
    /// At or above this temperature the platform is powered down at once.
    pub power_down_temperature: Temperature,
    /// Maximum modeled rate of temperature change, in thousandths of a
    /// degree per second, for worst-case projection of stale samples.
    pub temperature_slew_per_sec: u64,
}

impl ThermalProperties {
    /// The invariant every configured component satisfies.
    pub open spec fn wf(self) -> bool {
        &&& self.target_temperature.in_range()
        &&& self.critical_temperature.in_range()
        &&& self.power_down_temperature.in_range()
        &&& self.target_temperature.0 < self.critical_temperature.0
        &&& self.critical_temperature.0 < self.power_down_temperature.0
        &&& self.temperature_slew_per_sec <= SLEW_LIMIT
    }
}

/// Binds one temperature input to its thermal properties, the power modes
/// in which it is expected to be sampled, and whether the device may be
/// legitimately absent.
#[derive(Copy, Clone, Debug, PartialEq, Eq, Structural)]
pub struct InputChannel {
    /// Thermal properties of the associated component.
    pub temps: ThermalProperties,
    /// The input is sampled whenever this mask intersects the current
    /// power-mode mask.
    pub power_mode_mask: u32,
    /// When true, a read failing with "device not present" marks the input
    /// inactive instead of being treated as a fault.
    pub removable: bool,
}

impl InputChannel {
    /// A channel is well-formed when its properties are.
    pub open spec fn wf(self) -> bool {
        self.temps.wf()
    }

    /// True when this input is expected to be sampled in `power_mode`.
    pub open spec fn active_in(self, power_mode: u32) -> bool {
        self.power_mode_mask & power_mode != 0
    }

    /// Constructs a channel from board configuration.
    pub fn new(temps: ThermalProperties, power_mode_mask: u32, removable: bool) -> (channel:
        InputChannel)
        requires
            temps.wf(),
        ensures
            channel == (InputChannel { temps, power_mode_mask, removable }),
            channel.wf(),
    {
        InputChannel { temps, power_mode_mask, removable }
    }

    /// Executable form of `active_in`.
    pub fn is_active(&self, power_mode: u32) -> (active: bool)
        ensures
            active == self.active_in(power_mode),
    {
        self.power_mode_mask & power_mode != 0
    }
}

/// A temperature reading as stored in the per-tick snapshot.
#[derive(Copy, Clone, Debug, PartialEq, Eq, Structural)]
pub enum TemperatureReading {
    /// A reading was taken at `time_ms`.
    Valid { time_ms: u64, value: Temperature },
    /// This input is intentionally not sampled in the current power mode.
    Inactive,
}

/// A stored reading is well-formed when its timestamp does not lie in the
/// future of the last tick and its value is in range.
pub open spec fn reading_wf(reading: TemperatureReading, last_time_ms: u64) -> bool {
    reading matches TemperatureReading::Valid { time_ms, value }
        ==> time_ms <= last_time_ms && value.in_range()
}

/// The safety state machine's current variant and payload.
#[derive(Debug)]
#[allow(inconsistent_fields)]
pub enum ThermalControlState {
    /// Waiting for every sampled input to report at least once.
    Boot { values: Vec<Option<TemperatureReading>> },
    /// Normal closed-loop control.
    Running { values: Vec<TemperatureReading>, pid: OneSidedPidState },
    /// One or more components crossed its critical temperature; fans are at
    /// full power and a timeout is armed.
    Overheated { values: Vec<TemperatureReading>, start_time: u64 },
    /// A power-down condition was observed or recovery timed out; only an
    /// external reset leaves this state.
    Uncontrollable,
}

/// The state machine's variant without its payload, for external callers.
#[derive(Copy, Clone, Debug, PartialEq, Eq, Structural)]
pub enum ThermalAutoState {
    Boot,
    Running,
    Overheated,
    Uncontrollable,
}

/// Per-tick output of the control loop; never stored.
#[derive(Copy, Clone, Debug, PartialEq, Eq, Structural)]
pub enum ControlResult {
    /// Drive every fan at this duty.
    Pwm(PWMDuty),
    /// Power the platform down and stop the fans.
    PowerDown,
}

/// The reading a boot-state slot stands for: a slot that has never reported
/// counts as inactive for threshold and margin computation.
pub open spec fn boot_reading(slot: Option<TemperatureReading>) -> TemperatureReading {
    match slot {
        Some(reading) => reading,
        None => TemperatureReading::Inactive,
    }
}

/// The boot-state snapshot seen as plain readings.
pub open spec fn boot_values_seq(values: Seq<Option<TemperatureReading>>) -> Seq<
    TemperatureReading,
> {
    Seq::new(values.len(), |i: int| boot_reading(values[i]))
}

/// Worst-case projected temperature of input `i` at `now_ms`.
pub open spec fn projected_at(
    values: Seq<TemperatureReading>,
    inputs: Seq<InputChannel>,
    now_ms: u64,
    i: int,
) -> int {
    match values[i] {
        TemperatureReading::Valid { time_ms, value } => projected(
            value.0 as int,
            time_ms as int,
            inputs[i].temps.temperature_slew_per_sec as int,
            now_ms as int,
        ),
        TemperatureReading::Inactive => 0,
    }
}

/// Input `i` has a reading at or above its power-down temperature.
pub open spec fn over_power_down_at(
    values: Seq<TemperatureReading>,
    inputs: Seq<InputChannel>,
    now_ms: u64,
    i: int,
) -> bool {
    values[i] is Valid && projected_at(values, inputs, now_ms, i)
        >= inputs[i].temps.power_down_temperature.0
}

/// Input `i` has a reading at or above its critical temperature.
pub open spec fn over_critical_at(
    values: Seq<TemperatureReading>,
    inputs: Seq<InputChannel>,
    now_ms: u64,
    i: int,
) -> bool {
    values[i] is Valid && projected_at(values, inputs, now_ms, i)
        >= inputs[i].temps.critical_temperature.0
}

/// Some active input is at or above its power-down temperature.
pub open spec fn spec_any_power_down(
    values: Seq<TemperatureReading>,
    inputs: Seq<InputChannel>,
    now_ms: u64,
) -> bool {
    exists|i: int|
        0 <= i < values.len() && #[trigger] over_power_down_at(values, inputs, now_ms, i)
}

/// Some active input is at or above its critical temperature.
pub open spec fn spec_any_critical(
    values: Seq<TemperatureReading>,
    inputs: Seq<InputChannel>,
    now_ms: u64,
) -> bool {
    exists|i: int| 0 <= i < values.len() && #[trigger] over_critical_at(values, inputs, now_ms, i)
}

/// Every active input has dropped below its critical temperature minus the
/// hysteresis buffer.
pub open spec fn spec_all_subcritical(
    values: Seq<TemperatureReading>,
    inputs: Seq<InputChannel>,
    now_ms: u64,
    hysteresis: i64,
) -> bool {
    forall|i: int|
        0 <= i < values.len() && values[i] is Valid
            ==> #[trigger] projected_at(values, inputs, now_ms, i)
                < inputs[i].temps.critical_temperature.0 - hysteresis
}

/// Margin of input `i`: its target temperature minus its projected
/// temperature.  Positive means safely cool.
pub open spec fn margin_at(
    values: Seq<TemperatureReading>,
    inputs: Seq<InputChannel>,
    now_ms: u64,
    i: int,
) -> int {
    inputs[i].temps.target_temperature.0 - projected_at(values, inputs, now_ms, i)
}

/// Worst (smallest) margin among the first `n` inputs with a valid reading,
/// or `NO_INPUT_MARGIN` when none of them has one.
pub open spec fn worst_margin_upto(
    values: Seq<TemperatureReading>,
    inputs: Seq<InputChannel>,
    now_ms: u64,
    n: int,
) -> int
    decreases n,
{
    if n <= 0 {
        NO_INPUT_MARGIN as int
    } else {
        let rest = worst_margin_upto(values, inputs, now_ms, n - 1);
        if values[n - 1] is Valid {
            let margin = margin_at(values, inputs, now_ms, n - 1);
            if margin < rest {
                margin
            } else {
                rest
            }
        } else {
            rest
        }
    }
}

/// Worst margin across all inputs.
pub open spec fn spec_worst_margin(
    values: Seq<TemperatureReading>,
    inputs: Seq<InputChannel>,
    now_ms: u64,
) -> int {
    worst_margin_upto(values, inputs, now_ms, values.len() as int)
}

/// Every boot-state slot has reported at least once (an inactive report
/// counts).
pub open spec fn spec_all_reported(values: Seq<Option<TemperatureReading>>) -> bool {
    forall|i: int| 0 <= i < values.len() ==> (#[trigger] values[i]) is Some
}

/// Well-formedness of a state payload: snapshot length matches the number
/// of configured inputs, stored readings are in range and no timestamp lies
/// past the last tick.
pub open spec fn state_wf(
    state: ThermalControlState,
    num_inputs: nat,
    last_time_ms: u64,
) -> bool {
    match state {
        ThermalControlState::Boot { values } => {
            &&& values@.len() == num_inputs
            &&& forall|i: int|
                0 <= i < values@.len() ==> reading_wf(
                    boot_reading(#[trigger] values@[i]),
                    last_time_ms,
                )
        },
        ThermalControlState::Running { values, pid } => {
            &&& values@.len() == num_inputs
            &&& forall|i: int|
                0 <= i < values@.len() ==> reading_wf(#[trigger] values@[i], last_time_ms)
            &&& pid.wf()
        },
        ThermalControlState::Overheated { values, start_time } => {
            &&& values@.len() == num_inputs
            &&& forall|i: int|
                0 <= i < values@.len() ==> reading_wf(#[trigger] values@[i], last_time_ms)
            &&& start_time <= last_time_ms
        },
        ThermalControlState::Uncontrollable => true,
    }
}

/// The control loop: per-tick driver around the state machine and the PID
/// controller.
pub struct ThermalControl {
    /// The configured temperature inputs; immutable after construction.
    pub inputs: Vec<InputChannel>,
    /// How many fans the caller drives with the computed duty.
    pub num_fans: usize,
    /// Extra headroom demanded by the operator, in thousandths of a degree;
    /// subtracted from the worst margin before it reaches the controller.
    pub target_margin: i64,
    /// The safety state machine, mutated only by the tick functions.
    pub state: ThermalControlState,
    /// How long to wait in the overheated state before powering down.
    pub overheat_timeout_ms: u64,
    /// How far below critical a component must drop before the overheated
    /// state is left, in thousandths of a degree.
    pub overheat_hysteresis: i64,
    /// Most recent power-mode mask.
    pub power_mode: u32,
    /// Controller tuning currently in effect.
    pub pid_config: PidConfig,
    /// Controller tuning restored by `reset`.
    pub default_pid_config: PidConfig,
    /// Time of the most recent tick, in milliseconds.
    pub last_time_ms: u64,
}

impl ThermalControl {
    /// The invariant the constructor establishes and every tick preserves.
    pub open spec fn wf(self) -> bool {
        &&& self.pid_config.valid()
        &&& self.default_pid_config.valid()
        &&& 0 <= self.target_margin <= MARGIN_LIMIT
        &&& 0 <= self.overheat_hysteresis <= TEMP_LIMIT
        &&& self.overheat_timeout_ms <= TIME_LIMIT
        &&& self.last_time_ms <= TIME_LIMIT
        &&& forall|i: int| 0 <= i < self.inputs@.len() ==> (#[trigger] self.inputs@[i]).wf()
        &&& state_wf(self.state, self.inputs@.len(), self.last_time_ms)
    }

    /// Everything but the state machine and the tick time is unchanged.
    pub open spec fn same_config(self, other: ThermalControl) -> bool {
        &&& self.inputs == other.inputs
        &&& self.num_fans == other.num_fans
        &&& self.target_margin == other.target_margin
        &&& self.overheat_timeout_ms == other.overheat_timeout_ms
        &&& self.overheat_hysteresis == other.overheat_hysteresis
        &&& self.power_mode == other.power_mode
        &&& self.pid_config == other.pid_config
        &&& self.default_pid_config == other.default_pid_config
    }

    /// Constructs a control loop from board configuration.  It starts in
    /// the boot state with no sensor active, no extra margin, and the given
    /// tuning as both the current and the default configuration.
    pub fn new(inputs: Vec<InputChannel>, num_fans: usize, pid_config: PidConfig) -> (control:
        ThermalControl)
        requires
            pid_config.valid(),
            forall|i: int| 0 <= i < inputs@.len() ==> (#[trigger] inputs@[i]).wf(),
        ensures
            control.wf(),
            control.inputs == inputs,
            control.num_fans == num_fans,
            control.pid_config == pid_config,
            control.default_pid_config == pid_config,
            control.target_margin == 0,
            control.overheat_hysteresis == DEFAULT_HYSTERESIS,
            control.overheat_timeout_ms == DEFAULT_OVERHEAT_TIMEOUT_MS,
            control.power_mode == 0,
            control.last_time_ms == 0,
            (control.state matches ThermalControlState::Boot { values } ==> values@.len()
                == inputs@.len() && forall|i: int|
                0 <= i < values@.len() ==> (#[trigger] values@[i]) is None),
            control.state is Boot,
    {
        let num_inputs = inputs.len();
        ThermalControl {
            inputs,
            num_fans,
            target_margin: 0,
            state: ThermalControlState::Boot { values: boot_slots(num_inputs) },
            overheat_timeout_ms: DEFAULT_OVERHEAT_TIMEOUT_MS,
            overheat_hysteresis: DEFAULT_HYSTERESIS,
            power_mode: 0,
            pid_config,
            default_pid_config: pid_config,
            last_time_ms: 0,
        }
    }

    /// Updates the controller tuning after validating every value.  Gains
    /// and the bias must be in range, the proportional gain positive, the
    /// others non-negative; otherwise nothing changes and
    /// `InvalidParameter` is returned.  An accepted integral gain of zero
    /// also clears any accumulated integral at once: the pre-multiplied
    /// accumulator could otherwise never wind down, and a later non-zero
    /// gain would resurrect the stale windup.
    pub fn set_pid(&mut self, zero: i64, p: i64, i: i64, d: i64) -> (result: Result<
        (),
        ThermalError,
    >)
        requires
            old(self).wf(),
        ensures
            final(self).wf(),
            result is Ok <==> {
                &&& 0 < p <= GAIN_LIMIT
                &&& 0 <= i <= GAIN_LIMIT
                &&& 0 <= d <= GAIN_LIMIT
                &&& -ZERO_LIMIT <= zero <= ZERO_LIMIT
            },
            result matches Err(e) ==> e == ThermalError::InvalidParameter && *final(self) == *old(
                self,
            ),
            result is Ok ==> {
                &&& final(self).pid_config == (PidConfig {
                    zero,
                    gain_p: p,
                    gain_i: i,
                    gain_d: d,
                })
                &&& final(self).inputs == old(self).inputs
                &&& final(self).num_fans == old(self).num_fans
                &&& final(self).target_margin == old(self).target_margin
                &&& final(self).overheat_timeout_ms == old(self).overheat_timeout_ms
                &&& final(self).overheat_hysteresis == old(self).overheat_hysteresis
                &&& final(self).power_mode == old(self).power_mode
                &&& final(self).default_pid_config == old(self).default_pid_config
                &&& final(self).last_time_ms == old(self).last_time_ms
                &&& (old(self).state matches ThermalControlState::Running { values, pid }
                    ==> final(self).state matches ThermalControlState::Running {
                    values: new_values,
                    pid: new_pid,
                } && new_values@ == values@ && new_pid.prev_error == pid.prev_error
                    && new_pid.integral == (if i == 0 {
                    0
                } else {
                    pid.integral
                }))
                &&& (!(old(self).state is Running) ==> final(self).state == old(self).state)
            },
    {
        if p <= 0 || p > GAIN_LIMIT {
            return Err(ThermalError::InvalidParameter);
        }
        if i < 0 || i > GAIN_LIMIT {
            return Err(ThermalError::InvalidParameter);
        }
        if d < 0 || d > GAIN_LIMIT {
            return Err(ThermalError::InvalidParameter);
        }
        if zero < -ZERO_LIMIT || zero > ZERO_LIMIT {
            return Err(ThermalError::InvalidParameter);
        }

        // An integral gain of zero can never wind the (pre-multiplied)
        // accumulator down, so clear it here.
        if i == 0 {
            match &mut self.state {
                ThermalControlState::Running { pid, .. } => {
                    pid.integral = 0;
                },
                _ => {},
            }
        }

        self.pid_config = PidConfig { zero, gain_p: p, gain_i: i, gain_d: d };
        Ok(())
    }

    /// Updates the target margin after validating it: it must be between
    /// zero and `MARGIN_LIMIT`, otherwise nothing changes and
    /// `InvalidParameter` is returned.
    pub fn set_margin(&mut self, margin: i64) -> (result: Result<(), ThermalError>)
        requires
            old(self).wf(),
        ensures
            final(self).wf(),
            result is Ok <==> 0 <= margin <= MARGIN_LIMIT,
            result matches Err(e) ==> e == ThermalError::InvalidParameter && *final(self) == *old(
                self,
            ),
            result is Ok ==> *final(self) == (ThermalControl {
                target_margin: margin,
                ..*old(self)
            }),
    {
        if margin < 0 || margin > MARGIN_LIMIT {
            return Err(ThermalError::InvalidParameter);
        }
        self.target_margin = margin;
        Ok(())
    }

    /// The current target margin, in thousandths of a degree.
    pub fn get_margin(&self) -> (margin: i64)
        ensures
            margin == self.target_margin,
    {
        self.target_margin
    }

    /// Returns the state machine to boot and restores the default tuning
    /// and a zero margin.
    pub fn reset(&mut self)
        requires
            old(self).wf(),
        ensures
            final(self).wf(),
            final(self).state matches ThermalControlState::Boot { values } && values@.len() == old(
                self,
            ).inputs@.len() && forall|i: int|
                0 <= i < values@.len() ==> (#[trigger] values@[i]) is None,
            final(self).pid_config == old(self).default_pid_config,
            final(self).target_margin == 0,
            final(self).inputs == old(self).inputs,
            final(self).num_fans == old(self).num_fans,
            final(self).overheat_timeout_ms == old(self).overheat_timeout_ms,
            final(self).overheat_hysteresis == old(self).overheat_hysteresis,
            final(self).power_mode == old(self).power_mode,
            final(self).default_pid_config == old(self).default_pid_config,
            final(self).last_time_ms == old(self).last_time_ms,
    {
        let num_inputs = self.inputs.len();
        self.state = ThermalControlState::Boot { values: boot_slots(num_inputs) };
        self.pid_config = self.default_pid_config;
        self.target_margin = 0;
    }

    /// The state machine's current variant.
    pub fn get_state(&self) -> (state: ThermalAutoState)
        ensures
            state == (match self.state {
                ThermalControlState::Boot { .. } => ThermalAutoState::Boot,
                ThermalControlState::Running { .. } => ThermalAutoState::Running,
                ThermalControlState::Overheated { .. } => ThermalAutoState::Overheated,
                ThermalControlState::Uncontrollable => ThermalAutoState::Uncontrollable,
            }),
    {
        match self.state {
            ThermalControlState::Boot { .. } => ThermalAutoState::Boot,
            ThermalControlState::Running { .. } => ThermalAutoState::Running,
            ThermalControlState::Overheated { .. } => ThermalAutoState::Overheated,
            ThermalControlState::Uncontrollable => ThermalAutoState::Uncontrollable,
        }
    }

    /// The fan with the given index, if it exists in this group.
    pub fn fan(&self, index: u8) -> (fan: Option<Fan>)
        ensures
            fan == (if (index as int) < self.num_fans {
                Some(Fan(index))
            } else {
                None::<Fan>
            }),
    {
        if (index as usize) < self.num_fans {
            Some(Fan(index))
        } else {
            None
        }
    }
}

/// A boot snapshot in which no input has reported yet.
fn boot_slots(num_inputs: usize) -> (slots: Vec<Option<TemperatureReading>>)
    ensures
        slots@.len() == num_inputs,
        forall|i: int| 0 <= i < slots@.len() ==> (#[trigger] slots@[i]) is None,
{
    let mut slots: Vec<Option<TemperatureReading>> = Vec::new();
    let mut i: usize = 0;
    while i < num_inputs
        invariant
            i <= num_inputs,
            slots@.len() == i,
            forall|j: int| 0 <= j < slots@.len() ==> (#[trigger] slots@[j]) is None,
        decreases num_inputs - i,
    {
        slots.push(None);
        i = i + 1;
    }
    slots
}

/// What one pass over the stored readings establishes about the system.
pub struct InputSummary {
    /// Some input with a reading is at or above its power-down temperature.
    pub any_power_down: bool,
    /// Some input with a reading is at or above its critical temperature.
    pub any_critical: bool,
    /// Every input with a reading is below critical minus the hysteresis.
    pub all_subcritical: bool,
    /// The smallest margin among inputs with a reading, or
    /// `NO_INPUT_MARGIN` when there is none.
    pub worst_margin: i64,
}

/// One pass over the stored readings: projects every valid reading to
/// `now_ms` and compares it against its channel's thresholds.
fn summarize_readings(
    values: &Vec<TemperatureReading>,
    inputs: &Vec<InputChannel>,
    now_ms: u64,
    hysteresis: i64,
) -> (summary: InputSummary)
    requires
        values@.len() == inputs@.len(),
        forall|i: int| 0 <= i < inputs@.len() ==> (#[trigger] inputs@[i]).wf(),
        forall|i: int| 0 <= i < values@.len() ==> reading_wf(#[trigger] values@[i], now_ms),
        now_ms <= TIME_LIMIT,
        0 <= hysteresis <= TEMP_LIMIT,
    ensures
        summary.any_power_down == spec_any_power_down(values@, inputs@, now_ms),
        summary.any_critical == spec_any_critical(values@, inputs@, now_ms),
        summary.all_subcritical == spec_all_subcritical(values@, inputs@, now_ms, hysteresis),
        summary.worst_margin == spec_worst_margin(values@, inputs@, now_ms),
        !summary.any_power_down ==> -2 * TEMP_LIMIT <= summary.worst_margin <= NO_INPUT_MARGIN,
{
    let mut any_power_down = false;
    let mut any_critical = false;
    let mut all_subcritical = true;
    let mut worst_margin: i64 = NO_INPUT_MARGIN;
    let mut i: usize = 0;
    while i < values.len()
        invariant
            i <= values@.len(),
            values@.len() == inputs@.len(),
            forall|k: int| 0 <= k < inputs@.len() ==> (#[trigger] inputs@[k]).wf(),
            forall|k: int| 0 <= k < values@.len() ==> reading_wf(#[trigger] values@[k], now_ms),
            now_ms <= TIME_LIMIT,
            0 <= hysteresis <= TEMP_LIMIT,
            any_power_down == exists|k: int|
                0 <= k < i && #[trigger] over_power_down_at(values@, inputs@, now_ms, k),
            any_critical == exists|k: int|
                0 <= k < i && #[trigger] over_critical_at(values@, inputs@, now_ms, k),
            all_subcritical == forall|k: int|
                0 <= k < i && values@[k] is Valid ==> #[trigger] projected_at(
                    values@,
                    inputs@,
                    now_ms,
                    k,
                ) < inputs@[k].temps.critical_temperature.0 - hysteresis,
            worst_margin == worst_margin_upto(values@, inputs@, now_ms, i as int),
            !any_power_down ==> -2 * TEMP_LIMIT <= worst_margin <= NO_INPUT_MARGIN,
        decreases values@.len() - i,
    {
        match values[i] {
            TemperatureReading::Valid { time_ms, value } => {
                let channel = inputs[i];
                let projection = crate::sensors::project_temperature(
                    value,
                    time_ms,
                    channel.temps.temperature_slew_per_sec,
                    now_ms,
                );
                if projection >= channel.temps.power_down_temperature.0 {
                    proof {
                        assert(over_power_down_at(values@, inputs@, now_ms, i as int));
                    }
                    any_power_down = true;
                }
                if projection >= channel.temps.critical_temperature.0 {
                    proof {
                        assert(over_critical_at(values@, inputs@, now_ms, i as int));
                    }
                    any_critical = true;
                }
                if projection >= channel.temps.critical_temperature.0 - hysteresis {
                    all_subcritical = false;
                }
                let margin = channel.temps.target_temperature.0 - projection;
                if margin < worst_margin {
                    worst_margin = margin;
                }
            },
            TemperatureReading::Inactive => {},
        }
        i = i + 1;
    }
    InputSummary { any_power_down, any_critical, all_subcritical, worst_margin }
}

/// The boot snapshot converted to plain readings: a slot that has never
/// reported becomes an inactive reading.
fn boot_readings(values: &Vec<Option<TemperatureReading>>) -> (readings: Vec<TemperatureReading>)
    ensures
        readings@ == boot_values_seq(values@),
{
    let mut readings: Vec<TemperatureReading> = Vec::new();
    let mut i: usize = 0;
    while i < values.len()
        invariant
            i <= values@.len(),
            readings@.len() == i,
            forall|k: int| 0 <= k < i ==> #[trigger] readings@[k] == boot_reading(values@[k]),
        decreases values@.len() - i,
    {
        match values[i] {
            Some(reading) => readings.push(reading),
            None => readings.push(TemperatureReading::Inactive),
        }
        i = i + 1;
    }
    proof {
        assert(readings@ =~= boot_values_seq(values@));
    }
    readings
}

/// Whether every boot slot has reported at least once.
fn all_reported(values: &Vec<Option<TemperatureReading>>) -> (reported: bool)
    ensures
        reported == spec_all_reported(values@),
{
    let mut i: usize = 0;
    while i < values.len()
        invariant
            i <= values@.len(),
            forall|k: int| 0 <= k < i ==> (#[trigger] values@[k]) is Some,
        decreases values@.len() - i,
    {
        if values[i].is_none() {
            return false;
        }
        i = i + 1;
    }
    true
}

/// A copy of the stored readings, for rebuilding a state payload.
fn copy_readings(values: &Vec<TemperatureReading>) -> (copy: Vec<TemperatureReading>)
    ensures
        copy@ == values@,
{
    let mut copy: Vec<TemperatureReading> = Vec::new();
    let mut i: usize = 0;
    while i < values.len()
        invariant
            i <= values@.len(),
            copy@.len() == i,
            forall|k: int| 0 <= k < i ==> #[trigger] copy@[k] == values@[k],
        decreases values@.len() - i,
    {
        copy.push(values[i]);
        i = i + 1;
    }
    proof {
        assert(copy@ =~= values@);
    }
    copy
}

/// The duty commanded for a controller output, truncated from millionths of
/// a percent to whole percent.
pub open spec fn duty_of(out: int) -> PWMDuty {
    PWMDuty((out / 1_000_000) as u8)
}

/// Converts a controller output to the duty commanded to the fans.
fn duty_from_micro(out: i64) -> (duty: PWMDuty)
    requires
        0 <= out <= PWM_MAX_MICRO,
    ensures
        duty == duty_of(out as int),
        duty.0 <= PWM_MAX,
{
    proof {
        vstd::arithmetic::div_mod::lemma_div_is_ordered(out as int, PWM_MAX_MICRO as int, 1_000_000);
        vstd::arithmetic::div_mod::lemma_div_pos_is_pos(out as int, 1_000_000);
    }
    let duty = (out as u64) / 1_000_000;
    PWMDuty(duty as u8)
}

/// A controller with no history, as the running state starts with.
pub open spec fn fresh_pid() -> OneSidedPidState {
    OneSidedPidState { prev_error: None, integral: 0 }
}

/// The controller state stored after one step on `error` with the loop's
/// output limit.
pub open spec fn pid_stepped(cfg: PidConfig, pre: OneSidedPidState, error: int) -> OneSidedPidState {
    OneSidedPidState {
        prev_error: Some(error as i64),
        integral: next_integral(cfg, pre, error, PWM_MAX_MICRO as int) as i64,
    }
}

/// The transition table of the safety state machine, evaluated every tick
/// on worst-case projected temperatures.  Relates the machine before a tick
/// to its state and emitted command after it:
///
/// - any reading at or above its power-down temperature forces
///   `Uncontrollable` and a power-down directive, from every state;
/// - boot waits for every input to report, commanding full speed, then runs
///   one controller step from a fresh state and enters `Running`;
/// - running enters `Overheated` at full speed when a reading reaches its
///   critical temperature, and otherwise commands one controller step on
///   the worst margin (less the target margin);
/// - overheated returns to `Running` (one fresh controller step) once every
///   reading is below critical minus the hysteresis, gives up and powers
///   down when the timeout elapses first, and otherwise holds full speed;
/// - uncontrollable only ever commands power-down.
pub open spec fn step_rel(
    inputs: Seq<InputChannel>,
    cfg: PidConfig,
    target_margin: i64,
    hysteresis: i64,
    timeout_ms: u64,
    pre: ThermalControlState,
    now_ms: u64,
    post: ThermalControlState,
    result: ControlResult,
) -> bool {
    match pre {
        ThermalControlState::Boot { values } => {
            let readings = boot_values_seq(values@);
            if spec_any_power_down(readings, inputs, now_ms) {
                post is Uncontrollable && result == ControlResult::PowerDown
            } else if spec_all_reported(values@) {
                let error = target_margin - spec_worst_margin(readings, inputs, now_ms);
                &&& post matches ThermalControlState::Running { values: v2, pid } && v2@ == readings
                    && pid == pid_stepped(cfg, fresh_pid(), error)
                &&& result == ControlResult::Pwm(
                    duty_of(run_output(cfg, fresh_pid(), error, PWM_MAX_MICRO as int)),
                )
            } else {
                &&& post matches ThermalControlState::Boot { values: v2 } && v2@ == values@
                &&& result == ControlResult::Pwm(PWMDuty(PWM_MAX))
            }
        },
        ThermalControlState::Running { values, pid } => {
            if spec_any_power_down(values@, inputs, now_ms) {
                post is Uncontrollable && result == ControlResult::PowerDown
            } else if spec_any_critical(values@, inputs, now_ms) {
                &&& post matches ThermalControlState::Overheated { values: v2, start_time }
                    && v2@ == values@ && start_time == now_ms
                &&& result == ControlResult::Pwm(PWMDuty(PWM_MAX))
            } else {
                let error = target_margin - spec_worst_margin(values@, inputs, now_ms);
                &&& post matches ThermalControlState::Running { values: v2, pid: pid2 }
                    && v2@ == values@ && pid2 == pid_stepped(cfg, pid, error)
                &&& result == ControlResult::Pwm(
                    duty_of(run_output(cfg, pid, error, PWM_MAX_MICRO as int)),
                )
            }
        },
        ThermalControlState::Overheated { values, start_time } => {
            if spec_any_power_down(values@, inputs, now_ms) {
                post is Uncontrollable && result == ControlResult::PowerDown
            } else if spec_all_subcritical(values@, inputs, now_ms, hysteresis) {
                let error = target_margin - spec_worst_margin(values@, inputs, now_ms);
                &&& post matches ThermalControlState::Running { values: v2, pid: pid2 }
                    && v2@ == values@ && pid2 == pid_stepped(cfg, fresh_pid(), error)
                &&& result == ControlResult::Pwm(
                    duty_of(run_output(cfg, fresh_pid(), error, PWM_MAX_MICRO as int)),
                )
            } else if now_ms > start_time + timeout_ms {
                post is Uncontrollable && result == ControlResult::PowerDown
            } else {
                &&& post matches ThermalControlState::Overheated { values: v2, start_time: st2 }
                    && v2@ == values@ && st2 == start_time
                &&& result == ControlResult::Pwm(PWMDuty(PWM_MAX))
            }
        },
        ThermalControlState::Uncontrollable => {
            post is Uncontrollable && result == ControlResult::PowerDown
        },
    }
}

impl ThermalControl {
    /// Advances the state machine by one tick over the stored snapshot and
    /// answers with the command to apply.
    fn advance(&mut self, now_ms: u64) -> (result: ControlResult)
        requires
            old(self).wf(),
            old(self).last_time_ms <= now_ms <= TIME_LIMIT,
        ensures
            final(self).wf(),
            step_rel(
                old(self).inputs@,
                old(self).pid_config,
                old(self).target_margin,
                old(self).overheat_hysteresis,
                old(self).overheat_timeout_ms,
                old(self).state,
                now_ms,
                final(self).state,
                result,
            ),
            old(self).same_config(*final(self)),
            final(self).last_time_ms == now_ms,
    {
        let result: ControlResult;
        match &self.state {
            ThermalControlState::Boot { values } => {
                let readings = boot_readings(values);
                let summary = summarize_readings(
                    &readings,
                    &self.inputs,
                    now_ms,
                    self.overheat_hysteresis,
                );
                let reported = all_reported(values);
                if summary.any_power_down {
                    self.state = ThermalControlState::Uncontrollable;
                    result = ControlResult::PowerDown;
                } else if reported {
                    // Enter the running state and run a single controller
                    // step from a fresh state.
                    let mut pid = OneSidedPidState::new();
                    let error = self.target_margin - summary.worst_margin;
                    let out = pid.run(&self.pid_config, error, PWM_MAX_MICRO);
                    self.state = ThermalControlState::Running { values: readings, pid };
                    result = ControlResult::Pwm(duty_from_micro(out));
                } else {
                    // Conservative default while some input has never
                    // reported: full speed.
                    result = ControlResult::Pwm(PWMDuty(PWM_MAX));
                }
            },
            ThermalControlState::Running { values, pid } => {
                let summary = summarize_readings(
                    values,
                    &self.inputs,
                    now_ms,
                    self.overheat_hysteresis,
                );
                if summary.any_power_down {
                    self.state = ThermalControlState::Uncontrollable;
                    result = ControlResult::PowerDown;
                } else if summary.any_critical {
                    let kept = copy_readings(values);
                    self.state = ThermalControlState::Overheated {
                        values: kept,
                        start_time: now_ms,
                    };
                    result = ControlResult::Pwm(PWMDuty(PWM_MAX));
                } else {
                    let mut stepped = *pid;
                    let error = self.target_margin - summary.worst_margin;
                    let out = stepped.run(&self.pid_config, error, PWM_MAX_MICRO);
                    let kept = copy_readings(values);
                    self.state = ThermalControlState::Running { values: kept, pid: stepped };
                    result = ControlResult::Pwm(duty_from_micro(out));
                }
            },
            ThermalControlState::Overheated { values, start_time } => {
                let entered = *start_time;
                let summary = summarize_readings(
                    values,
                    &self.inputs,
                    now_ms,
                    self.overheat_hysteresis,
                );
                if summary.any_power_down {
                    self.state = ThermalControlState::Uncontrollable;
                    result = ControlResult::PowerDown;
                } else if summary.all_subcritical {
                    // Re-enter the running state and run a single
                    // controller step from a fresh state.
                    let mut pid = OneSidedPidState::new();
                    let error = self.target_margin - summary.worst_margin;
                    let out = pid.run(&self.pid_config, error, PWM_MAX_MICRO);
                    let kept = copy_readings(values);
                    self.state = ThermalControlState::Running { values: kept, pid };
                    result = ControlResult::Pwm(duty_from_micro(out));
                } else if now_ms > entered + self.overheat_timeout_ms {
                    // Sustained full-speed cooling failed to recover the
                    // system.
                    self.state = ThermalControlState::Uncontrollable;
                    result = ControlResult::PowerDown;
                } else {
                    result = ControlResult::Pwm(PWMDuty(PWM_MAX));
                }
            },
            ThermalControlState::Uncontrollable => {
                result = ControlResult::PowerDown;
            },
        }
        self.last_time_ms = now_ms;
        result
    }
}

/// One input's read outcome fused into its stored reading.  An input
/// outside the current power mode is inactive; a fresh reading replaces the
/// slot wholesale; a removable device answering "not present" becomes
/// inactive; any other failure leaves the previous reading untouched, so
/// the staleness projector's pessimistic extrapolation protects the system
/// if the fault persists.
pub open spec fn fuse_reading(
    prev: TemperatureReading,
    channel: InputChannel,
    power_mode: u32,
    reading: Result<Temperature, SensorReadError>,
    now_ms: u64,
) -> TemperatureReading {
    if !channel.active_in(power_mode) {
        TemperatureReading::Inactive
    } else {
        match reading {
            Ok(value) => TemperatureReading::Valid { time_ms: now_ms, value },
            Err(error) => if channel.removable && error.spec_indicates_not_present() {
                TemperatureReading::Inactive
            } else {
                prev
            },
        }
    }
}

/// `fuse_reading` lifted to a boot slot, where an input that has never
/// reported holds nothing.
pub open spec fn fuse_slot(
    prev: Option<TemperatureReading>,
    channel: InputChannel,
    power_mode: u32,
    reading: Result<Temperature, SensorReadError>,
    now_ms: u64,
) -> Option<TemperatureReading> {
    if !channel.active_in(power_mode) {
        Some(TemperatureReading::Inactive)
    } else {
        match reading {
            Ok(value) => Some(TemperatureReading::Valid { time_ms: now_ms, value }),
            Err(error) => if channel.removable && error.spec_indicates_not_present() {
                Some(TemperatureReading::Inactive)
            } else {
                prev
            },
        }
    }
}

/// What the telemetry sink is told about one input's read outcome.
pub open spec fn spec_sensor_event(
    channel: InputChannel,
    power_mode: u32,
    reading: Result<Temperature, SensorReadError>,
) -> SensorEvent {
    if !channel.active_in(power_mode) {
        SensorEvent::NoData(NoDataReason::DeviceOff)
    } else {
        match reading {
            Ok(value) => SensorEvent::Reading(value),
            Err(error) => SensorEvent::NoData(spec_no_data_reason(error)),
        }
    }
}

/// Relates a state payload to the payload after one round of readings has
/// been fused into it, slot by slot.  Only the snapshot changes; the
/// variant and any other payload stay.
pub open spec fn fused_from(
    pre: ThermalControlState,
    inputs: Seq<InputChannel>,
    power_mode: u32,
    readings: Seq<Result<Temperature, SensorReadError>>,
    now_ms: u64,
    post: ThermalControlState,
) -> bool {
    match pre {
        ThermalControlState::Boot { values } => {
            &&& post matches ThermalControlState::Boot { values: v2 }
            &&& v2@.len() == values@.len()
            &&& forall|i: int|
                0 <= i < values@.len() ==> #[trigger] v2@[i] == fuse_slot(
                    values@[i],
                    inputs[i],
                    power_mode,
                    readings[i],
                    now_ms,
                )
        },
        ThermalControlState::Running { values, pid } => {
            &&& post matches ThermalControlState::Running { values: v2, pid: pid2 }
            &&& pid2 == pid
            &&& v2@.len() == values@.len()
            &&& forall|i: int|
                0 <= i < values@.len() ==> #[trigger] v2@[i] == fuse_reading(
                    values@[i],
                    inputs[i],
                    power_mode,
                    readings[i],
                    now_ms,
                )
        },
        ThermalControlState::Overheated { values, start_time } => {
            &&& post matches ThermalControlState::Overheated { values: v2, start_time: st2 }
            &&& st2 == start_time
            &&& v2@.len() == values@.len()
            &&& forall|i: int|
                0 <= i < values@.len() ==> #[trigger] v2@[i] == fuse_reading(
                    values@[i],
                    inputs[i],
                    power_mode,
                    readings[i],
                    now_ms,
                )
        },
        ThermalControlState::Uncontrollable => post is Uncontrollable,
    }
}

/// Relates freshly reset boot slots to those slots after one round of
/// readings: what the snapshot holds right after a power-mode change.
pub open spec fn fused_reset(
    inputs: Seq<InputChannel>,
    power_mode: u32,
    readings: Seq<Result<Temperature, SensorReadError>>,
    now_ms: u64,
    post: ThermalControlState,
) -> bool {
    &&& post matches ThermalControlState::Boot { values: v2 }
    &&& v2@.len() == inputs.len()
    &&& forall|i: int|
        0 <= i < inputs.len() ==> #[trigger] v2@[i] == fuse_slot(
            None,
            inputs[i],
            power_mode,
            readings[i],
            now_ms,
        )
}

/// Fuses one round of readings into a boot snapshot, slot by slot.
fn fuse_slots(
    values: &mut Vec<Option<TemperatureReading>>,
    inputs: &Vec<InputChannel>,
    power_mode: u32,
    readings: &Vec<Result<Temperature, SensorReadError>>,
    now_ms: u64,
)
    requires
        old(values)@.len() == inputs@.len(),
        readings@.len() == inputs@.len(),
    ensures
        final(values)@.len() == old(values)@.len(),
        forall|i: int|
            0 <= i < old(values)@.len() ==> #[trigger] final(values)@[i] == fuse_slot(
                old(values)@[i],
                inputs@[i],
                power_mode,
                readings@[i],
                now_ms,
            ),
{
    let mut i: usize = 0;
    while i < values.len()
        invariant
            i <= values@.len(),
            values@.len() == old(values)@.len(),
            inputs@.len() == old(values)@.len(),
            readings@.len() == old(values)@.len(),
            forall|k: int|
                0 <= k < i ==> #[trigger] values@[k] == fuse_slot(
                    old(values)@[k],
                    inputs@[k],
                    power_mode,
                    readings@[k],
                    now_ms,
                ),
            forall|k: int| i <= k < values@.len() ==> #[trigger] values@[k] == old(values)@[k],
        decreases values@.len() - i,
    {
        let channel = inputs[i];
        if !channel.is_active(power_mode) {
            values.set(i, Some(TemperatureReading::Inactive));
        } else {
            match readings[i] {
                Ok(value) => {
                    values.set(i, Some(TemperatureReading::Valid { time_ms: now_ms, value }));
                },
                Err(error) => {
                    if channel.removable && error.indicates_not_present() {
                        values.set(i, Some(TemperatureReading::Inactive));
                    }
                },
            }
        }
        i = i + 1;
    }
}

/// Fuses one round of readings into a running or overheated snapshot.
fn fuse_values(
    values: &mut Vec<TemperatureReading>,
    inputs: &Vec<InputChannel>,
    power_mode: u32,
    readings: &Vec<Result<Temperature, SensorReadError>>,
    now_ms: u64,
)
    requires
        old(values)@.len() == inputs@.len(),
        readings@.len() == inputs@.len(),
    ensures
        final(values)@.len() == old(values)@.len(),
        forall|i: int|
            0 <= i < old(values)@.len() ==> #[trigger] final(values)@[i] == fuse_reading(
                old(values)@[i],
                inputs@[i],
                power_mode,
                readings@[i],
                now_ms,
            ),
{
    let mut i: usize = 0;
    while i < values.len()
        invariant
            i <= values@.len(),
            values@.len() == old(values)@.len(),
            inputs@.len() == old(values)@.len(),
            readings@.len() == old(values)@.len(),
            forall|k: int|
                0 <= k < i ==> #[trigger] values@[k] == fuse_reading(
                    old(values)@[k],
                    inputs@[k],
                    power_mode,
                    readings@[k],
                    now_ms,
                ),
            forall|k: int| i <= k < values@.len() ==> #[trigger] values@[k] == old(values)@[k],
        decreases values@.len() - i,
    {
        let channel = inputs[i];
        if !channel.is_active(power_mode) {
            values.set(i, TemperatureReading::Inactive);
        } else {
            match readings[i] {
                Ok(value) => {
                    values.set(i, TemperatureReading::Valid { time_ms: now_ms, value });
                },
                Err(error) => {
                    if channel.removable && error.indicates_not_present() {
                        values.set(i, TemperatureReading::Inactive);
                    }
                },
            }
        }
        i = i + 1;
    }
}

/// The telemetry events for one round of readings, one per input.
fn sensor_events(
    inputs: &Vec<InputChannel>,
    power_mode: u32,
    readings: &Vec<Result<Temperature, SensorReadError>>,
) -> (events: Vec<SensorEvent>)
    requires
        readings@.len() == inputs@.len(),
    ensures
        events@.len() == inputs@.len(),
        forall|i: int|
            0 <= i < inputs@.len() ==> #[trigger] events@[i] == spec_sensor_event(
                inputs@[i],
                power_mode,
                readings@[i],
            ),
{
    let mut events: Vec<SensorEvent> = Vec::new();
    let mut i: usize = 0;
    while i < readings.len()
        invariant
            i <= readings@.len(),
            readings@.len() == inputs@.len(),
            events@.len() == i,
            forall|k: int|
                0 <= k < i ==> #[trigger] events@[k] == spec_sensor_event(
                    inputs@[k],
                    power_mode,
                    readings@[k],
                ),
        decreases readings@.len() - i,
    {
        let channel = inputs[i];
        let event = if !channel.is_active(power_mode) {
            SensorEvent::NoData(NoDataReason::DeviceOff)
        } else {
            match readings[i] {
                Ok(value) => SensorEvent::Reading(value),
                Err(error) => SensorEvent::NoData(crate::sensors::no_data_reason(error)),
            }
        };
        events.push(event);
        i = i + 1;
    }
    events
}

impl ThermalControl {
    /// Fuses one round of sensor read outcomes into the stored snapshot and
    /// answers with what to forward to the telemetry sink, one event per
    /// input.  A power-mode change resets the state machine to boot first,
    /// because the previously running set of active inputs is no longer
    /// valid.  A failed read never aborts the tick: see `fuse_reading` for
    /// how each outcome lands in the snapshot.
    pub fn read_sensors(
        &mut self,
        now_ms: u64,
        power_mode: u32,
        readings: &Vec<Result<Temperature, SensorReadError>>,
    ) -> (events: Vec<SensorEvent>)
        requires
            old(self).wf(),
            old(self).last_time_ms <= now_ms <= TIME_LIMIT,
            readings@.len() == old(self).inputs@.len(),
            forall|i: int|
                0 <= i < readings@.len() ==> (#[trigger] readings@[i] matches Ok(v)
                    ==> v.in_range()),
        ensures
            final(self).wf(),
            final(self).last_time_ms == now_ms,
            final(self).power_mode == power_mode,
            final(self).inputs == old(self).inputs,
            final(self).num_fans == old(self).num_fans,
            final(self).target_margin == old(self).target_margin,
            final(self).overheat_timeout_ms == old(self).overheat_timeout_ms,
            final(self).overheat_hysteresis == old(self).overheat_hysteresis,
            final(self).pid_config == old(self).pid_config,
            final(self).default_pid_config == old(self).default_pid_config,
            events@.len() == readings@.len(),
            forall|i: int|
                0 <= i < readings@.len() ==> #[trigger] events@[i] == spec_sensor_event(
                    old(self).inputs@[i],
                    power_mode,
                    readings@[i],
                ),
            power_mode == old(self).power_mode ==> fused_from(
                old(self).state,
                old(self).inputs@,
                power_mode,
                readings@,
                now_ms,
                final(self).state,
            ),
            power_mode != old(self).power_mode ==> fused_reset(
                old(self).inputs@,
                power_mode,
                readings@,
                now_ms,
                final(self).state,
            ),
    {
        let events = sensor_events(&self.inputs, power_mode, readings);

        // A changed power mode may require a new set of sensors to be
        // online: wait for all of them before re-entering the control loop.
        if power_mode != self.power_mode {
            let num_inputs = self.inputs.len();
            self.state = ThermalControlState::Boot { values: boot_slots(num_inputs) };
            self.power_mode = power_mode;
        }

        match &mut self.state {
            ThermalControlState::Boot { values } => {
                fuse_slots(values, &self.inputs, power_mode, readings, now_ms);
            },
            ThermalControlState::Running { values, .. } => {
                fuse_values(values, &self.inputs, power_mode, readings, now_ms);
            },
            ThermalControlState::Overheated { values, .. } => {
                fuse_values(values, &self.inputs, power_mode, readings, now_ms);
            },
            ThermalControlState::Uncontrollable => {},
        }
        self.last_time_ms = now_ms;
        events
    }

    /// One full tick: fuses the given read outcomes into the snapshot, then
    /// advances the safety state machine on the projected temperatures.
    /// Answers with the command the caller must apply — a duty for every
    /// fan, or a power-down directive — and the telemetry events of this
    /// round.
    pub fn run_control(
        &mut self,
        now_ms: u64,
        power_mode: u32,
        readings: &Vec<Result<Temperature, SensorReadError>>,
    ) -> ((result, events): (ControlResult, Vec<SensorEvent>))
        requires
            old(self).wf(),
            old(self).last_time_ms <= now_ms <= TIME_LIMIT,
            readings@.len() == old(self).inputs@.len(),
            forall|i: int|
                0 <= i < readings@.len() ==> (#[trigger] readings@[i] matches Ok(v)
                    ==> v.in_range()),
        ensures
            final(self).wf(),
            final(self).last_time_ms == now_ms,
            final(self).power_mode == power_mode,
            final(self).inputs == old(self).inputs,
            final(self).num_fans == old(self).num_fans,
            final(self).target_margin == old(self).target_margin,
            final(self).overheat_timeout_ms == old(self).overheat_timeout_ms,
            final(self).overheat_hysteresis == old(self).overheat_hysteresis,
            final(self).pid_config == old(self).pid_config,
            final(self).default_pid_config == old(self).default_pid_config,
            events@.len() == readings@.len(),
            forall|i: int|
                0 <= i < readings@.len() ==> #[trigger] events@[i] == spec_sensor_event(
                    old(self).inputs@[i],
                    power_mode,
                    readings@[i],
                ),
            exists|mid: ThermalControlState|
                {
                    &&& (power_mode == old(self).power_mode ==> fused_from(
                        old(self).state,
                        old(self).inputs@,
                        power_mode,
                        readings@,
                        now_ms,
                        mid,
                    ))
                    &&& (power_mode != old(self).power_mode ==> fused_reset(
                        old(self).inputs@,
                        power_mode,
                        readings@,
                        now_ms,
                        mid,
                    ))
                    &&& #[trigger] step_rel(
                        old(self).inputs@,
                        old(self).pid_config,
                        old(self).target_margin,
                        old(self).overheat_hysteresis,
                        old(self).overheat_timeout_ms,
                        mid,
                        now_ms,
                        final(self).state,
                        result,
                    )
                },
    {
        let events = self.read_sensors(now_ms, power_mode, readings);
        let ghost mid = self.state;
        let result = self.advance(now_ms);
        proof {
            assert(step_rel(
                old(self).inputs@,
                old(self).pid_config,
                old(self).target_margin,
                old(self).overheat_hysteresis,
                old(self).overheat_timeout_ms,
                mid,
                now_ms,
                self.state,
                result,
            ));
        }
        (result, events)
    }
}

/// A power-down condition is visible in a state's snapshot: some input
/// with a reading projects at or above its power-down temperature.  In the
/// uncontrollable state the condition was already observed.
pub open spec fn observed_power_down(
    pre: ThermalControlState,
    inputs: Seq<InputChannel>,
    now_ms: u64,
) -> bool {
    match pre {
        ThermalControlState::Boot { values } => spec_any_power_down(
            boot_values_seq(values@),
            inputs,
            now_ms,
        ),
        ThermalControlState::Running { values, .. } => spec_any_power_down(
            values@,
            inputs,
            now_ms,
        ),
        ThermalControlState::Overheated { values, .. } => spec_any_power_down(
            values@,
            inputs,
            now_ms,
        ),
        ThermalControlState::Uncontrollable => true,
    }
}

/// From any state, an input at or above its power-down temperature makes
/// the tick yield a power-down directive and the uncontrollable state,
/// pre-empting all other transition logic.
pub proof fn lemma_power_down_preempts(
    inputs: Seq<InputChannel>,
    cfg: PidConfig,
    target_margin: i64,
    hysteresis: i64,
    timeout_ms: u64,
    pre: ThermalControlState,
    now_ms: u64,
    post: ThermalControlState,
    result: ControlResult,
)
    requires
        step_rel(inputs, cfg, target_margin, hysteresis, timeout_ms, pre, now_ms, post, result),
        observed_power_down(pre, inputs, now_ms),
    ensures
        post is Uncontrollable,
        result == ControlResult::PowerDown,
{
}

/// From the running state, an input at or above its critical temperature
/// (with none at power-down) forces the overheated state and full fan
/// speed, regardless of the other inputs' margins.
pub proof fn lemma_critical_forces_overheated(
    inputs: Seq<InputChannel>,
    cfg: PidConfig,
    target_margin: i64,
    hysteresis: i64,
    timeout_ms: u64,
    pre: ThermalControlState,
    now_ms: u64,
    post: ThermalControlState,
    result: ControlResult,
)
    requires
        step_rel(inputs, cfg, target_margin, hysteresis, timeout_ms, pre, now_ms, post, result),
        pre matches ThermalControlState::Running { values, .. } && !spec_any_power_down(
            values@,
            inputs,
            now_ms,
        ) && spec_any_critical(values@, inputs, now_ms),
    ensures
        post matches ThermalControlState::Overheated { start_time, .. } && start_time == now_ms,
        result == ControlResult::Pwm(PWMDuty(PWM_MAX)),
{
}

/// From the overheated state, once the timeout has elapsed and some input
/// still has not dropped below critical minus the hysteresis, the tick
/// yields the uncontrollable state and a power-down directive: sustained
/// full-speed cooling failed to recover the system.
pub proof fn lemma_overheat_timeout(
    inputs: Seq<InputChannel>,
    cfg: PidConfig,
    target_margin: i64,
    hysteresis: i64,
    timeout_ms: u64,
    pre: ThermalControlState,
    now_ms: u64,
    post: ThermalControlState,
    result: ControlResult,
)
    requires
        step_rel(inputs, cfg, target_margin, hysteresis, timeout_ms, pre, now_ms, post, result),
        pre matches ThermalControlState::Overheated { values, start_time } && !spec_any_power_down(
            values@,
            inputs,
            now_ms,
        ) && !spec_all_subcritical(values@, inputs, now_ms, hysteresis) && now_ms > start_time
            + timeout_ms,
    ensures
        post is Uncontrollable,
        result == ControlResult::PowerDown,
{
}

/// From boot, once every input has reported (an inactive report counts)
/// and none is at its power-down temperature, the tick enters the running
/// state and emits the duty of a single controller step, from a fresh
/// controller state, on the worst margin less the target margin.
pub proof fn lemma_boot_completion(
    inputs: Seq<InputChannel>,
    cfg: PidConfig,
    target_margin: i64,
    hysteresis: i64,
    timeout_ms: u64,
    pre: ThermalControlState,
    now_ms: u64,
    post: ThermalControlState,
    result: ControlResult,
)
    requires
        step_rel(inputs, cfg, target_margin, hysteresis, timeout_ms, pre, now_ms, post, result),
        pre matches ThermalControlState::Boot { values } && spec_all_reported(values@)
            && !spec_any_power_down(boot_values_seq(values@), inputs, now_ms),
    ensures
        pre matches ThermalControlState::Boot { values } ==> {
            let readings = boot_values_seq(values@);
            let error = target_margin - spec_worst_margin(readings, inputs, now_ms);
            &&& post matches ThermalControlState::Running { values: v2, pid } && v2@ == readings
                && pid == pid_stepped(cfg, fresh_pid(), error)
            &&& result == ControlResult::Pwm(
                duty_of(run_output(cfg, fresh_pid(), error, PWM_MAX_MICRO as int)),
            )
        },
{
}

/// A removable input whose read fails with "device not present" is marked
/// inactive for the tick — in the boot snapshot its slot still counts as
/// reported, so it does not block the transition to running.
pub proof fn lemma_removable_absent_inactive(
    slot: Option<TemperatureReading>,
    prev: TemperatureReading,
    channel: InputChannel,
    power_mode: u32,
    error: SensorReadError,
    now_ms: u64,
)
    requires
        channel.removable,
        error.spec_indicates_not_present(),
    ensures
        fuse_slot(slot, channel, power_mode, Err(error), now_ms) == Some(
            TemperatureReading::Inactive,
        ),
        fuse_reading(prev, channel, power_mode, Err(error), now_ms)
            == TemperatureReading::Inactive,
{
}

/// An inactive input takes no part in threshold computation: it can
/// neither trip the power-down nor the critical comparison, and the worst
/// margin passes over it.
pub proof fn lemma_inactive_excluded(
    values: Seq<TemperatureReading>,
    inputs: Seq<InputChannel>,
    now_ms: u64,
    i: int,
)
    requires
        0 <= i < values.len(),
        values[i] is Inactive,
    ensures
        !over_power_down_at(values, inputs, now_ms, i),
        !over_critical_at(values, inputs, now_ms, i),
        worst_margin_upto(values, inputs, now_ms, i + 1) == worst_margin_upto(
            values,
            inputs,
            now_ms,
            i,
        ),
{
}

/// The worst margin lives up to its name: it is at most the margin of
/// every input that has a reading.
pub proof fn lemma_worst_margin_le(
    values: Seq<TemperatureReading>,
    inputs: Seq<InputChannel>,
    now_ms: u64,
    i: int,
)
    requires
        0 <= i < values.len(),
        values[i] is Valid,
    ensures
        spec_worst_margin(values, inputs, now_ms) <= margin_at(values, inputs, now_ms, i),
{
    lemma_worst_margin_upto_le(values, inputs, now_ms, values.len() as int, i);
}

/// The worst margin is not invented: over well-formed readings it is the
/// margin of some input with a reading, or `NO_INPUT_MARGIN` exactly when
/// no input has one.
pub proof fn lemma_worst_margin_achieved(
    values: Seq<TemperatureReading>,
    inputs: Seq<InputChannel>,
    now_ms: u64,
)
    requires
        values.len() == inputs.len(),
        forall|i: int| 0 <= i < inputs.len() ==> (#[trigger] inputs[i]).wf(),
        forall|i: int| 0 <= i < values.len() ==> reading_wf(#[trigger] values[i], now_ms),
        now_ms <= TIME_LIMIT,
    ensures
        spec_worst_margin(values, inputs, now_ms) == NO_INPUT_MARGIN <==> (forall|i: int|
            0 <= i < values.len() ==> !((#[trigger] values[i]) is Valid)),
        (exists|i: int| 0 <= i < values.len() && (#[trigger] values[i]) is Valid) ==> exists|i: int|
            0 <= i < values.len() && (#[trigger] values[i]) is Valid && margin_at(
                values,
                inputs,
                now_ms,
                i,
            ) == spec_worst_margin(values, inputs, now_ms),
{
    lemma_worst_margin_upto_achieved(values, inputs, now_ms, values.len() as int);
}

/// Helper for `lemma_worst_margin_achieved`, by induction on the prefix
/// length.
proof fn lemma_worst_margin_upto_achieved(
    values: Seq<TemperatureReading>,
    inputs: Seq<InputChannel>,
    now_ms: u64,
    n: int,
)
    requires
        0 <= n <= values.len(),
        values.len() == inputs.len(),
        forall|i: int| 0 <= i < inputs.len() ==> (#[trigger] inputs[i]).wf(),
        forall|i: int| 0 <= i < values.len() ==> reading_wf(#[trigger] values[i], now_ms),
        now_ms <= TIME_LIMIT,
    ensures
        worst_margin_upto(values, inputs, now_ms, n) == NO_INPUT_MARGIN <==> (forall|i: int|
            0 <= i < n ==> !((#[trigger] values[i]) is Valid)),
        (exists|i: int| 0 <= i < n && (#[trigger] values[i]) is Valid) ==> exists|i: int|
            0 <= i < n && (#[trigger] values[i]) is Valid && margin_at(values, inputs, now_ms, i)
                == worst_margin_upto(values, inputs, now_ms, n),
        worst_margin_upto(values, inputs, now_ms, n) <= NO_INPUT_MARGIN,
    decreases n,
{
    if n > 0 {
        lemma_worst_margin_upto_achieved(values, inputs, now_ms, n - 1);
        if values[n - 1] is Valid {
            let reading = values[n - 1];
            crate::sensors::lemma_projection_pessimistic(
                reading->value.0 as int,
                reading->time_ms as int,
                inputs[n - 1].temps.temperature_slew_per_sec as int,
                now_ms as int,
            );
            assert(margin_at(values, inputs, now_ms, n - 1) <= 2 * TEMP_LIMIT);
        }
    }
}

/// Helper for `lemma_worst_margin_le`, by induction on the prefix length.
proof fn lemma_worst_margin_upto_le(
    values: Seq<TemperatureReading>,
    inputs: Seq<InputChannel>,
    now_ms: u64,
    n: int,
    i: int,
)
    requires
        0 <= i < n <= values.len(),
        values[i] is Valid,
    ensures
        worst_margin_upto(values, inputs, now_ms, n) <= margin_at(values, inputs, now_ms, i),
    decreases n,
{
    if i < n - 1 {
        lemma_worst_margin_upto_le(values, inputs, now_ms, n - 1, i);
    }
}

/// The outcome of a duty-cycle broadcast as surfaced to the control
/// loop's caller: every fan was attempted, and a single failure among them
/// is reported as a device error.
pub fn fan_broadcast_result(results: &Vec<Result<(), DeviceError>>) -> (outcome: Result<
    (),
    ThermalError,
>)
    ensures
        outcome is Ok <==> (forall|i: int|
            0 <= i < results@.len() ==> (#[trigger] results@[i]) is Ok),
        outcome matches Err(e) ==> e == ThermalError::DeviceError,
{
    match aggregate_last_error(results) {
        Ok(()) => Ok(()),
        Err(_) => Err(ThermalError::DeviceError),
    }
}

/// Validates a requested duty cycle: accepted exactly when it does not
/// exceed `PWM_MAX`.
pub fn check_pwm(pwm: PWMDuty) -> (result: Result<(), ThermalError>)
    ensures
        result is Ok <==> pwm.0 <= PWM_MAX,
        result matches Err(e) ==> e == ThermalError::InvalidPWM,
{
    if pwm.0 > PWM_MAX {
        Err(ThermalError::InvalidPWM)
    } else {
        Ok(())
    }
}

/// Folds the outcomes of a command broadcast to every fan: all attempts are
/// made regardless of failures, and the error reported is the last one that
/// occurred.
pub fn aggregate_last_error(results: &Vec<Result<(), DeviceError>>) -> (folded: Result<
    (),
    DeviceError,
>)
    ensures
        folded is Ok <==> (forall|i: int|
            0 <= i < results@.len() ==> (#[trigger] results@[i]) is Ok),
        folded matches Err(e) ==> exists|i: int|
            {
                &&& 0 <= i < results@.len()
                &&& #[trigger] results@[i] == Err::<(), DeviceError>(e)
                &&& forall|j: int| i < j < results@.len() ==> (#[trigger] results@[j]) is Ok
            },
{
    let mut folded: Result<(), DeviceError> = Ok(());
    let mut i: usize = 0;
    while i < results.len()
        invariant
            i <= results@.len(),
            folded is Ok <==> (forall|k: int| 0 <= k < i ==> (#[trigger] results@[k]) is Ok),
            folded matches Err(e) ==> exists|k: int|
                {
                    &&& 0 <= k < i
                    &&& #[trigger] results@[k] == Err::<(), DeviceError>(e)
                    &&& forall|j: int| k < j < i ==> (#[trigger] results@[j]) is Ok
                },
        decreases results@.len() - i,
    {
        match results[i] {
            Ok(()) => {},
            Err(e) => {
                folded = Err(e);
            },
        }
        i = i + 1;
    }
    folded
}

} // verus!
