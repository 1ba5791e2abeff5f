//! Behavioral tests of the anti-windup PID controller.

use thermal_core::pid::{OneSidedPidState, PidConfig};
use thermal_core::units::PWM_MAX_MICRO;

fn config(zero: i64, p: i64, i: i64, d: i64) -> PidConfig {
    PidConfig { zero, gain_p: p, gain_i: i, gain_d: d }
}

#[test]
fn fresh_state_is_empty() {
    let state = OneSidedPidState::new();
    assert_eq!(state.prev_error, None);
    assert_eq!(state.integral, 0);
    let default_state = OneSidedPidState::default();
    assert_eq!(default_state.prev_error, None);
    assert_eq!(default_state.integral, 0);
}

#[test]
fn proportional_only_exact_value() {
    // A gain of 1.0 on an error of 25 degrees demands a duty of 25 percent.
    let cfg = config(0, 1_000, 0, 0);
    let mut state = OneSidedPidState::new();
    let out = state.run(&cfg, 25_000, PWM_MAX_MICRO);
    assert_eq!(out, 25_000_000);
    assert_eq!(state.prev_error, Some(25_000));
}

#[test]
fn output_stays_within_limits() {
    // Gains p=2.0, i=0.25, d=0.5 over a wild error sequence: the output
    // must stay within [0, limit] on every call.
    let cfg = config(0, 2_000, 250, 500);
    let mut state = OneSidedPidState::new();
    let errors: [i64; 10] = [
        1_000_000,
        -3_000_000,
        250_000,
        0,
        7_000_000_000,
        -7_000_000_000,
        42,
        -42,
        999_999,
        123_456,
    ];
    for error in errors {
        let out = state.run(&cfg, error, PWM_MAX_MICRO);
        assert!(out >= 0);
        assert!(out <= PWM_MAX_MICRO);
    }
}

#[test]
fn negative_error_clamps_to_zero() {
    // Fans cannot reverse: a cold system demands duty 0, not a negative one.
    let cfg = config(0, 1_000, 0, 0);
    let mut state = OneSidedPidState::new();
    let out = state.run(&cfg, -10_000, PWM_MAX_MICRO);
    assert_eq!(out, 0);
}

#[test]
fn anti_windup_bounds_integral_during_saturation() {
    // p=1.0, i=0.5 on a constant error of 50 degrees: the output saturates
    // on the second call, and from then on the integral is clamped to
    // exactly the value that keeps pd + integral at the limit.
    let cfg = config(0, 1_000, 500, 0);
    let mut state = OneSidedPidState::new();

    let out1 = state.run(&cfg, 50_000, PWM_MAX_MICRO);
    assert_eq!(out1, 75_000_000); // p = 50, integral = 25
    assert_eq!(state.integral, 25_000_000);

    let out2 = state.run(&cfg, 50_000, PWM_MAX_MICRO);
    assert_eq!(out2, 100_000_000); // saturated exactly
    assert_eq!(state.integral, 50_000_000);

    for _ in 0..5 {
        let out = state.run(&cfg, 50_000, PWM_MAX_MICRO);
        assert_eq!(out, 100_000_000);
        // pd = 50 of duty, so the integral may never exceed limit - pd.
        assert_eq!(state.integral, 50_000_000);
    }
}

#[test]
fn no_overshoot_after_saturation_ends() {
    // Saturate as above, then drop the error to zero: the output must fall
    // back to exactly the accumulated integral, with no stale windup.
    let cfg = config(0, 1_000, 500, 0);
    let mut state = OneSidedPidState::new();
    for _ in 0..10 {
        state.run(&cfg, 50_000, PWM_MAX_MICRO);
    }
    let out = state.run(&cfg, 0, PWM_MAX_MICRO);
    assert_eq!(out, 50_000_000);
    assert!(out <= PWM_MAX_MICRO);
}

#[test]
fn derivative_term_needs_history() {
    // d=1.0: the first call has no previous error, so no derivative
    // contribution; the second call sees the error fall by 10 degrees.
    let cfg = config(0, 1_000, 0, 1_000);
    let mut state = OneSidedPidState::new();
    let out1 = state.run(&cfg, 30_000, PWM_MAX_MICRO);
    assert_eq!(out1, 30_000_000);
    let out2 = state.run(&cfg, 20_000, PWM_MAX_MICRO);
    // p = 20 duty, d = (20 - 30) * 1.0 = -10 duty.
    assert_eq!(out2, 10_000_000);
}

#[test]
fn zero_bias_shifts_output() {
    // zero = 10.0 duty (10_000 thousandths of a percent) with no error.
    let cfg = config(10_000, 1_000, 0, 0);
    let mut state = OneSidedPidState::new();
    let out = state.run(&cfg, 0, PWM_MAX_MICRO);
    assert_eq!(out, 10_000_000);
}
