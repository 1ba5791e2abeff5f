//! Anti-windup PID controller that can only push in one direction: the
//! output is always within `[0, output_limit]`, and the integral accumulator
//! is clamped so that it alone can never drive the output out of that range,
//! even after long saturation.
//!
//! The error input is in thousandths of a degree, the gains and the zero
//! bias are in thousandths, and the output is in millionths of a percent of
//! duty cycle, so every term of the sum carries the same scale.

use vstd::prelude::*;

verus! {

/// Largest accepted magnitude of a gain, in thousandths (a gain of 1000.0).
pub const GAIN_LIMIT: i64 = 1_000_000;

/// Largest accepted magnitude of the zero bias, in thousandths of a percent.
pub const ZERO_LIMIT: i64 = 1_000_000_000;

/// Largest error magnitude the controller accepts, in thousandths of a
/// degree.  The control loop stays well inside this: it only runs the
/// controller while every projected temperature is below its power-down
/// threshold.
pub const ERROR_LIMIT: i64 = 8_000_000_000;

/// Largest accepted output limit, in millionths of a percent.
pub const OUTPUT_LIMIT_MAX: i64 = 1_000_000_000_000;

/// Bound on the stored integral accumulator.  Each call clamps the
/// accumulator to the range that keeps the output in bounds, which is well
/// inside this.
pub const INTEGRAL_LIMIT: i64 = 100_000_000_000_000_000;

/// Configuration for a PID controller.  All values are fixed-point
/// thousandths.
#[derive(Copy, Clone, Debug, PartialEq, Eq, Structural)]
pub struct PidConfig {
    /// Output bias applied before the proportional, integral and derivative
    /// contributions, in thousandths of a percent.
    pub zero: i64,
    /// Proportional gain, in thousandths; must be positive.
    pub gain_p: i64,
    /// Integral gain, in thousandths; must be non-negative.
    pub gain_i: i64,
    /// Derivative gain, in thousandths; must be non-negative.
    pub gain_d: i64,
}

impl PidConfig {
    /// The ranges a configuration must satisfy before the controller will
    /// accept it.
    pub open spec fn valid(self) -> bool {
        &&& 0 < self.gain_p <= GAIN_LIMIT
        &&& 0 <= self.gain_i <= GAIN_LIMIT
        &&& 0 <= self.gain_d <= GAIN_LIMIT
        &&& -ZERO_LIMIT <= self.zero <= ZERO_LIMIT
    }
}

/// State of a PID controller whose output must always be non-negative.
#[derive(Copy, Clone, Debug)]
pub struct OneSidedPidState {
    /// Error seen by the previous call, for the derivative term; absent
    /// before the first sample.
    pub prev_error: Option<i64>,
    /// Accumulated integral term, pre-multiplied by the integral gain.
    pub integral: i64,
}

/// `x` clamped into `[lo, hi]`.
pub open spec fn clamp_int(x: int, lo: int, hi: int) -> int {
    if x < lo {
        lo
    } else if x > hi {
        hi
    } else {
        x
    }
}

/// Derivative contribution: zero before the first sample has been seen.
pub open spec fn derivative_term(cfg: PidConfig, prev_error: Option<i64>, error: int) -> int {
    match prev_error {
        Some(prev) => (error - prev) * cfg.gain_d,
        None => 0,
    }
}

/// The non-integral part of the output: bias plus proportional plus
/// derivative contributions.
pub open spec fn pd_term(cfg: PidConfig, prev_error: Option<i64>, error: int) -> int {
    cfg.zero * 1000 + cfg.gain_p * error + derivative_term(cfg, prev_error, error)
}

/// Least integral value that can still affect the output: clamping to this
/// range is the anti-windup step.
pub open spec fn integral_lo(pd: int, limit: int) -> int {
    if pd < 0 {
        0
    } else {
        -pd
    }
}

/// Greatest integral value that keeps `pd + integral` within the output
/// range.
pub open spec fn integral_hi(pd: int, limit: int) -> int {
    if pd > limit {
        0
    } else {
        limit - pd
    }
}

/// The integral accumulator stored after one controller call.
pub open spec fn next_integral(
    cfg: PidConfig,
    state: OneSidedPidState,
    error: int,
    limit: int,
) -> int {
    let pd = pd_term(cfg, state.prev_error, error);
    clamp_int(state.integral + cfg.gain_i * error, integral_lo(pd, limit), integral_hi(pd, limit))
}

/// The output of one controller call.
pub open spec fn run_output(
    cfg: PidConfig,
    state: OneSidedPidState,
    error: int,
    limit: int,
) -> int {
    let pd = pd_term(cfg, state.prev_error, error);
    clamp_int(pd + next_integral(cfg, state, error, limit), 0, limit)
}

/// Bound on products of a gain with an error-sized value.
proof fn lemma_gain_product_bound(gain: int, x: int, x_bound: int)
    requires
        0 <= gain <= GAIN_LIMIT,
        0 <= x_bound,
        -x_bound <= x <= x_bound,
    ensures
        -(GAIN_LIMIT * x_bound) <= gain * x <= GAIN_LIMIT * x_bound,
        gain * x == x * gain,
{
    assert(-(GAIN_LIMIT * x_bound) <= gain * x <= GAIN_LIMIT * x_bound && gain * x == x * gain)
        by (nonlinear_arith)
        requires
            0 <= gain <= GAIN_LIMIT,
            0 <= x_bound,
            -x_bound <= x <= x_bound,
    ;
}

impl OneSidedPidState {
    /// The internal bounds every stored state satisfies; `run` preserves
    /// them and the fresh state has them.
    pub open spec fn wf(self) -> bool {
        &&& -INTEGRAL_LIMIT <= self.integral <= INTEGRAL_LIMIT
        &&& (self.prev_error matches Some(prev) ==> -ERROR_LIMIT <= prev <= ERROR_LIMIT)
    }

    /// A controller with no history and an empty accumulator.
    pub fn new() -> (state: OneSidedPidState)
        ensures
            state == (OneSidedPidState { prev_error: None::<i64>, integral: 0i64 }),
            state.wf(),
    {
        OneSidedPidState { prev_error: None, integral: 0 }
    }

    /// One controller step: attempts to drive `error` to zero.  The error
    /// and the output have the same sign convention, so a large positive
    /// error produces a large positive output.
    ///
    /// The integral accumulator is clamped into the range that keeps
    /// `pd + integral` inside `[0, output_limit]` before it is added, so
    /// saturation cannot wind it up, and the result itself always lies in
    /// `[0, output_limit]`.
    pub fn run(&mut self, cfg: &PidConfig, error: i64, output_limit: i64) -> (out: i64)
        requires
            cfg.valid(),
            old(self).wf(),
            -ERROR_LIMIT <= error <= ERROR_LIMIT,
            0 <= output_limit <= OUTPUT_LIMIT_MAX,
        ensures
            final(self).prev_error == Some(error),
            final(self).integral == next_integral(*cfg, *old(self), error as int, output_limit as int),
            out == run_output(*cfg, *old(self), error as int, output_limit as int),
            0 <= out <= output_limit,
            final(self).wf(),
    {
        proof {
            lemma_gain_product_bound(cfg.gain_p as int, error as int, ERROR_LIMIT as int);
            lemma_gain_product_bound(cfg.gain_i as int, error as int, ERROR_LIMIT as int);
        }
        let p_contribution = cfg.gain_p * error;

        // Pre-multiply the accumulated integral by the gain, which makes
        // clamping easier and means a later gain change causes no glitch.
        self.integral = self.integral + cfg.gain_i * error;

        // Derivative term, only once a previous error exists.
        let d_contribution = match self.prev_error {
            Some(prev_error) => {
                proof {
                    lemma_gain_product_bound(
                        cfg.gain_d as int,
                        error - prev_error,
                        2 * ERROR_LIMIT as int,
                    );
                }
                (error - prev_error) * cfg.gain_d
            },
            None => 0,
        };
        self.prev_error = Some(error);

        // To prevent integral windup the integral term is clamped to values
        // that can affect the output.
        let out_pd = cfg.zero * 1000 + p_contribution + d_contribution;
        let (integral_min, integral_max) = if out_pd > output_limit {
            (-out_pd, 0)
        } else if out_pd < 0 {
            (0, output_limit - out_pd)
        } else {
            (-out_pd, output_limit - out_pd)
        };
        if self.integral < integral_min {
            self.integral = integral_min;
        }
        if self.integral > integral_max {
            self.integral = integral_max;
        }

        // Clamp the output into the valid range.
        let out = out_pd + self.integral;
        if out > output_limit {
            output_limit
        } else if out < 0 {
            0
        } else {
            out
        }
    }
}

impl Default for OneSidedPidState {
    /// Same fresh state as `new`.
    fn default() -> (state: Self)
        ensures
            state == (OneSidedPidState { prev_error: None::<i64>, integral: 0i64 }),
            state.wf(),
    {
        OneSidedPidState { prev_error: None, integral: 0 }
    }
}

/// Anti-windup law: the accumulator stored by a call never exceeds the value
/// needed to keep `pd + integral` at the output limit, and never falls below
/// the value needed to keep it at zero.  In particular, whenever the
/// non-integral part of the output is itself in range, the output equals
/// `pd + integral` exactly, so no stale windup can make it overshoot once
/// saturation ends.
pub proof fn lemma_anti_windup(
    cfg: PidConfig,
    state: OneSidedPidState,
    error: int,
    limit: int,
)
    requires
        0 <= limit,
    ensures
        ({
            let pd = pd_term(cfg, state.prev_error, error);
            let stored = next_integral(cfg, state, error, limit);
            &&& pd <= limit ==> pd + stored <= limit
            &&& 0 <= pd ==> 0 <= pd + stored
            &&& 0 <= pd <= limit ==> run_output(cfg, state, error, limit) == pd + stored
        }),
{
}

} // verus!
