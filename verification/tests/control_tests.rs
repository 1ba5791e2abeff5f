//! Scenario tests of the thermal control loop and its safety state machine.

use thermal_core::control::{
    aggregate_last_error, check_pwm, fan_broadcast_result, ControlResult, DeviceError,
    InputChannel, TemperatureReading, ThermalAutoState, ThermalControl, ThermalControlState,
    ThermalError, ThermalProperties,
};
use thermal_core::pid::PidConfig;
use thermal_core::sensors::{NoDataReason, SensorEvent, SensorReadError, BUS_CODE_NO_DEVICE};
use thermal_core::units::{Fan, PWMDuty, Temperature};

type Reading = Result<Temperature, SensorReadError>;

fn properties(slew: u64) -> ThermalProperties {
    ThermalProperties {
        target_temperature: Temperature(50_000),
        critical_temperature: Temperature(80_000),
        power_down_temperature: Temperature(95_000),
        temperature_slew_per_sec: slew,
    }
}

fn proportional_config() -> PidConfig {
    PidConfig { zero: 0, gain_p: 1_000, gain_i: 0, gain_d: 0 }
}

fn two_input_control(slew: u64, removable_b: bool) -> ThermalControl {
    let a = InputChannel::new(properties(slew), 1, false);
    let b = InputChannel::new(properties(slew), 1, removable_b);
    ThermalControl::new(vec![a, b], 2, proportional_config())
}

fn ok(milli: i64) -> Reading {
    Ok(Temperature(milli))
}

#[test]
fn boot_to_running_after_all_report() {
    let mut control = two_input_control(1_000, false);
    assert_eq!(control.get_state(), ThermalAutoState::Boot);
    let (result, events) = control.run_control(0, 1, &vec![ok(70_000), ok(60_000)]);
    // Worst margin is 50 - 70 = -20 degrees; with target margin 0 and a
    // proportional gain of 1.0, a single controller step demands duty 20.
    assert_eq!(result, ControlResult::Pwm(PWMDuty(20)));
    assert_eq!(control.get_state(), ThermalAutoState::Running);
    assert_eq!(
        events,
        vec![
            SensorEvent::Reading(Temperature(70_000)),
            SensorEvent::Reading(Temperature(60_000)),
        ]
    );
}

#[test]
fn boot_waits_for_every_input() {
    let mut control = two_input_control(1_000, false);
    // A non-removable input failing its first read keeps the machine in
    // boot, commanding full speed as a conservative default.
    let (result, events) =
        control.run_control(0, 1, &vec![ok(70_000), Err(SensorReadError::SensorFailure)]);
    assert_eq!(result, ControlResult::Pwm(PWMDuty(100)));
    assert_eq!(control.get_state(), ThermalAutoState::Boot);
    assert_eq!(
        events,
        vec![
            SensorEvent::Reading(Temperature(70_000)),
            SensorEvent::NoData(NoDataReason::DeviceError),
        ]
    );
    // Once it reports, the machine enters the running state.
    let (result, _) = control.run_control(100, 1, &vec![ok(70_000), ok(60_000)]);
    assert_eq!(result, ControlResult::Pwm(PWMDuty(20)));
    assert_eq!(control.get_state(), ThermalAutoState::Running);
}

#[test]
fn end_to_end_staleness_projection() {
    let mut control = two_input_control(1_000, false);
    let (first, _) = control.run_control(0, 1, &vec![ok(70_000), ok(60_000)]);
    assert_eq!(first, ControlResult::Pwm(PWMDuty(20)));
    // Five seconds later with no fresh samples, at 1 degree per second of
    // slew: projected temperatures are 75 and 65 degrees, worst margin
    // 50 - 75 = -25, controller input 0 - (-25) = 25, output duty 25.
    let (second, _) = control.run_control(
        5_000,
        1,
        &vec![Err(SensorReadError::NoData), Err(SensorReadError::NoData)],
    );
    assert_eq!(second, ControlResult::Pwm(PWMDuty(25)));
}

#[test]
fn critical_temperature_forces_overheated() {
    let mut control = two_input_control(1_000, false);
    control.run_control(0, 1, &vec![ok(70_000), ok(60_000)]);
    // One input at its critical temperature: full speed, regardless of the
    // other input's comfortable margin.
    let (result, _) = control.run_control(1_000, 1, &vec![ok(85_000), ok(40_000)]);
    assert_eq!(result, ControlResult::Pwm(PWMDuty(100)));
    assert_eq!(control.get_state(), ThermalAutoState::Overheated);
}

#[test]
fn overheated_recovers_below_hysteresis() {
    let mut control = two_input_control(0, false);
    control.run_control(0, 1, &vec![ok(70_000), ok(60_000)]);
    control.run_control(1_000, 1, &vec![ok(85_000), ok(60_000)]);
    assert_eq!(control.get_state(), ThermalAutoState::Overheated);
    // Both inputs drop below critical minus the hysteresis: back to
    // running, with one fresh controller step (worst margin -20).
    let (result, _) = control.run_control(2_000, 1, &vec![ok(70_000), ok(60_000)]);
    assert_eq!(result, ControlResult::Pwm(PWMDuty(20)));
    assert_eq!(control.get_state(), ThermalAutoState::Running);
}

#[test]
fn overheated_times_out_to_uncontrollable() {
    // Zero slew, so the stale reading alone decides the thresholds.
    let mut control = two_input_control(0, false);
    control.run_control(0, 1, &vec![ok(70_000), ok(60_000)]);
    control.run_control(1_000, 1, &vec![ok(85_000), ok(60_000)]);
    assert_eq!(control.get_state(), ThermalAutoState::Overheated);
    // Still critical just before the timeout expires: full speed.
    let (holding, _) = control.run_control(61_000, 1, &vec![ok(85_000), ok(60_000)]);
    assert_eq!(holding, ControlResult::Pwm(PWMDuty(100)));
    assert_eq!(control.get_state(), ThermalAutoState::Overheated);
    // Past entry time + timeout with an input still above critical minus
    // hysteresis: power down.
    let (result, _) = control.run_control(61_001, 1, &vec![ok(85_000), ok(60_000)]);
    assert_eq!(result, ControlResult::PowerDown);
    assert_eq!(control.get_state(), ThermalAutoState::Uncontrollable);
}

#[test]
fn power_down_preempts_from_boot() {
    let mut control = two_input_control(1_000, false);
    let (result, _) = control.run_control(0, 1, &vec![ok(95_000), ok(40_000)]);
    assert_eq!(result, ControlResult::PowerDown);
    assert_eq!(control.get_state(), ThermalAutoState::Uncontrollable);
}

#[test]
fn power_down_preempts_from_running() {
    let mut control = two_input_control(1_000, false);
    control.run_control(0, 1, &vec![ok(70_000), ok(60_000)]);
    let (result, _) = control.run_control(1_000, 1, &vec![ok(40_000), ok(96_000)]);
    assert_eq!(result, ControlResult::PowerDown);
    assert_eq!(control.get_state(), ThermalAutoState::Uncontrollable);
}

#[test]
fn uncontrollable_only_resets_externally() {
    let mut control = two_input_control(1_000, false);
    control.run_control(0, 1, &vec![ok(95_000), ok(40_000)]);
    // Healthy readings do not leave the uncontrollable state.
    let (result, _) = control.run_control(1_000, 1, &vec![ok(40_000), ok(40_000)]);
    assert_eq!(result, ControlResult::PowerDown);
    assert_eq!(control.get_state(), ThermalAutoState::Uncontrollable);
    control.reset();
    assert_eq!(control.get_state(), ThermalAutoState::Boot);
}

#[test]
fn removable_absent_input_does_not_block_boot() {
    let mut control = two_input_control(1_000, true);
    let (result, events) = control.run_control(
        0,
        1,
        &vec![ok(70_000), Err(SensorReadError::BusError(BUS_CODE_NO_DEVICE))],
    );
    // The absent removable input is marked inactive and excluded from the
    // margin: only input A's margin of -20 drives the controller.
    assert_eq!(result, ControlResult::Pwm(PWMDuty(20)));
    assert_eq!(control.get_state(), ThermalAutoState::Running);
    assert_eq!(
        events,
        vec![
            SensorEvent::Reading(Temperature(70_000)),
            SensorEvent::NoData(NoDataReason::DeviceNotPresent),
        ]
    );
    match &control.state {
        ThermalControlState::Running { values, .. } => {
            assert_eq!(values[1], TemperatureReading::Inactive);
        }
        _ => panic!("expected the running state"),
    }
}

#[test]
fn failed_read_keeps_stale_reading() {
    let mut control = two_input_control(1_000, false);
    control.run_control(0, 1, &vec![ok(70_000), ok(60_000)]);
    control.run_control(1_000, 1, &vec![ok(70_000), Err(SensorReadError::CorruptReply)]);
    match &control.state {
        ThermalControlState::Running { values, .. } => {
            // Input B keeps its reading from t=0 untouched.
            assert_eq!(
                values[1],
                TemperatureReading::Valid { time_ms: 0, value: Temperature(60_000) }
            );
            assert_eq!(
                values[0],
                TemperatureReading::Valid { time_ms: 1_000, value: Temperature(70_000) }
            );
        }
        _ => panic!("expected the running state"),
    }
}

#[test]
fn power_mode_change_resets_to_boot() {
    let mut control = two_input_control(1_000, false);
    control.run_control(0, 1, &vec![ok(70_000), ok(60_000)]);
    assert_eq!(control.get_state(), ThermalAutoState::Running);
    // In power mode 2 neither channel is sampled: the machine reboots,
    // every input reports inactive at once, and with no active input the
    // controller is fed a huge margin and demands no cooling.
    let (result, events) = control.run_control(
        2_000,
        2,
        &vec![Err(SensorReadError::NoData), Err(SensorReadError::NoData)],
    );
    assert_eq!(result, ControlResult::Pwm(PWMDuty(0)));
    assert_eq!(control.get_state(), ThermalAutoState::Running);
    assert_eq!(
        events,
        vec![
            SensorEvent::NoData(NoDataReason::DeviceOff),
            SensorEvent::NoData(NoDataReason::DeviceOff),
        ]
    );
}

#[test]
fn zero_integral_gain_clears_accumulator() {
    let a = InputChannel::new(properties(1_000), 1, false);
    let b = InputChannel::new(properties(1_000), 1, false);
    let tuned = PidConfig { zero: 0, gain_p: 1_000, gain_i: 500, gain_d: 0 };
    let mut control = ThermalControl::new(vec![a, b], 2, tuned);
    control.run_control(0, 1, &vec![ok(70_000), ok(60_000)]);
    match &control.state {
        ThermalControlState::Running { pid, .. } => assert_eq!(pid.integral, 10_000_000),
        _ => panic!("expected the running state"),
    }
    // Setting the integral gain to exactly zero clears the accumulated
    // integral immediately, even mid-running.
    assert_eq!(control.set_pid(0, 1_000, 0, 0), Ok(()));
    match &control.state {
        ThermalControlState::Running { pid, .. } => assert_eq!(pid.integral, 0),
        _ => panic!("expected the running state"),
    }
}

#[test]
fn set_pid_validates_gains() {
    let mut control = two_input_control(1_000, false);
    assert_eq!(control.set_pid(0, 0, 0, 0), Err(ThermalError::InvalidParameter));
    assert_eq!(control.set_pid(0, -1_000, 0, 0), Err(ThermalError::InvalidParameter));
    assert_eq!(control.set_pid(0, 1_000, -1, 0), Err(ThermalError::InvalidParameter));
    assert_eq!(control.set_pid(0, 1_000, 0, -1), Err(ThermalError::InvalidParameter));
    assert_eq!(control.set_pid(2_000_000_000, 1_000, 0, 0), Err(ThermalError::InvalidParameter));
    // A rejected update leaves the configuration untouched.
    assert_eq!(control.pid_config, proportional_config());
    assert_eq!(control.set_pid(0, 2_000, 250, 125), Ok(()));
    assert_eq!(
        control.pid_config,
        PidConfig { zero: 0, gain_p: 2_000, gain_i: 250, gain_d: 125 }
    );
}

#[test]
fn set_margin_validates_and_overcools() {
    let mut control = two_input_control(1_000, false);
    assert_eq!(control.set_margin(-1), Err(ThermalError::InvalidParameter));
    assert_eq!(control.get_margin(), 0);
    assert_eq!(control.set_margin(10_000), Ok(()));
    assert_eq!(control.get_margin(), 10_000);
    // Readings 5 degrees below target would demand nothing at margin 0;
    // with a 10 degree target margin the controller sees an error of 5.
    let (result, _) = control.run_control(0, 1, &vec![ok(45_000), ok(45_000)]);
    assert_eq!(result, ControlResult::Pwm(PWMDuty(5)));
}

#[test]
fn reset_restores_default_tuning_and_margin() {
    let mut control = two_input_control(1_000, false);
    control.set_pid(0, 3_000, 100, 0).unwrap();
    control.set_margin(5_000).unwrap();
    control.run_control(0, 1, &vec![ok(70_000), ok(60_000)]);
    control.reset();
    assert_eq!(control.get_state(), ThermalAutoState::Boot);
    assert_eq!(control.pid_config, proportional_config());
    assert_eq!(control.get_margin(), 0);
}

#[test]
fn fan_lookup_checks_bounds() {
    let control = two_input_control(1_000, false);
    assert_eq!(control.fan(0), Some(Fan(0)));
    assert_eq!(control.fan(1), Some(Fan(1)));
    assert_eq!(control.fan(2), None);
}

#[test]
fn pwm_validation() {
    assert_eq!(check_pwm(PWMDuty(0)), Ok(()));
    assert_eq!(check_pwm(PWMDuty(100)), Ok(()));
    assert_eq!(check_pwm(PWMDuty(101)), Err(ThermalError::InvalidPWM));
}

#[test]
fn broadcast_reports_last_error_without_short_circuit() {
    let all_good: Vec<Result<(), DeviceError>> = vec![Ok(()), Ok(()), Ok(())];
    assert_eq!(aggregate_last_error(&all_good), Ok(()));
    assert_eq!(fan_broadcast_result(&all_good), Ok(()));

    let mixed: Vec<Result<(), DeviceError>> =
        vec![Ok(()), Err(DeviceError(3)), Ok(()), Err(DeviceError(7)), Ok(())];
    assert_eq!(aggregate_last_error(&mixed), Err(DeviceError(7)));
    assert_eq!(fan_broadcast_result(&mixed), Err(ThermalError::DeviceError));
}
