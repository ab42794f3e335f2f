//! A PID controller in integer arithmetic.
//!
//! Measurements and the setpoint are integers in one unit, gains are integers
//! in another, and every term is their product: with temperatures in
//! sixteenths of a degree and gains in thousandths, a term counts
//! sixteen-thousandths. Each term has a limit of its own, and so has their sum.

use vstd::prelude::*;

verus! {

/// The three terms of one step and their limited sum.
#[derive(Clone, Copy, Debug, PartialEq, Eq, Structural)]
pub struct ControlOutput {
    /// Proportional term.
    pub p: i64,
    /// Integral term: the accumulator after this step.
    pub i: i64,
    /// Derivative term.
    pub d: i64,
    /// Sum of the three, within the output limit.
    pub output: i64,
}

/// Gains, limits and the state that a controller carries between steps.
#[derive(Clone, Copy, Debug, PartialEq, Eq, Structural)]
pub struct Pid {
    /// Value that the measurement should reach.
    pub setpoint: i32,
    /// Limit of the magnitude of the output.
    pub output_limit: u32,
    /// Proportional gain.
    pub kp: i32,
    /// Integral gain.
    pub ki: i32,
    /// Derivative gain.
    pub kd: i32,
    /// Limit of the magnitude of the proportional term.
    pub p_limit: u32,
    /// Limit of the magnitude of the integral term.
    pub i_limit: u32,
    /// Limit of the magnitude of the derivative term.
    pub d_limit: u32,
    /// Accumulated integral term.
    pub integral_term: i64,
    /// Measurement of the step before, if there was one.
    pub prev_measurement: Option<i32>,
}

/// `value` held within `-limit` and `limit`.
pub open spec fn limited(limit: int, value: int) -> int {
    if value > limit {
        limit
    } else if value < -limit {
        -limit
    } else {
        value
    }
}

impl Pid {
    /// Setpoint minus measurement.
    pub open spec fn error(self, measurement: int) -> int {
        self.setpoint - measurement
    }

    /// Error times gain, within the proportional limit.
    pub open spec fn p_term(self, measurement: int) -> int {
        limited(self.p_limit as int, self.error(measurement) * self.kp)
    }

    /// Accumulator plus error times gain, within the integral limit.
    pub open spec fn i_term(self, measurement: int) -> int {
        limited(self.i_limit as int, self.integral_term + self.error(measurement) * self.ki)
    }

    /// How far the measurement rose since the step before; zero at the first.
    pub open spec fn rise(self, measurement: int) -> int {
        match self.prev_measurement {
            Some(prev) => measurement - prev,
            None => 0,
        }
    }

    /// Minus the rise times gain, within the derivative limit.
    pub open spec fn d_term(self, measurement: int) -> int {
        limited(self.d_limit as int, -self.rise(measurement) * self.kd)
    }

    /// Sum of the three terms, within the output limit.
    pub open spec fn output(self, measurement: int) -> int {
        limited(
            self.output_limit as int,
            self.p_term(measurement) + self.i_term(measurement) + self.d_term(measurement),
        )
    }

    /// The controller after a step: the integral term is the new accumulator
    /// and the measurement is remembered.
    pub open spec fn next(self, measurement: i32) -> Pid {
        Pid {
            integral_term: self.i_term(measurement as int) as i64,
            prev_measurement: Some(measurement),
            ..self
        }
    }

    /// A controller with the given setpoint and output limit, all gains and
    /// term limits zero, and no history.
    pub open spec fn fresh(setpoint: i32, output_limit: u32) -> Pid {
        Pid {
            setpoint,
            output_limit,
            kp: 0,
            ki: 0,
            kd: 0,
            p_limit: 0,
            i_limit: 0,
            d_limit: 0,
            integral_term: 0,
            prev_measurement: None,
        }
    }

    /// A controller with the given setpoint and output limit, all gains and
    /// term limits zero, and no history.
    pub fn new(setpoint: i32, output_limit: u32) -> (pid: Self)
        ensures
            pid == Pid::fresh(setpoint, output_limit),
    {
        Pid {
            setpoint,
            output_limit,
            kp: 0,
            ki: 0,
            kd: 0,
            p_limit: 0,
            i_limit: 0,
            d_limit: 0,
            integral_term: 0,
            prev_measurement: None,
        }
    }

    /// Sets the proportional gain and the limit of its term.
    pub fn p(&mut self, gain: i32, limit: u32)
        ensures
            *final(self) == (Pid { kp: gain, p_limit: limit, ..*old(self) }),
    {
        self.kp = gain;
        self.p_limit = limit;
    }

    /// Sets the integral gain and the limit of its term.
    pub fn i(&mut self, gain: i32, limit: u32)
        ensures
            *final(self) == (Pid { ki: gain, i_limit: limit, ..*old(self) }),
    {
        self.ki = gain;
        self.i_limit = limit;
    }

    /// Sets the derivative gain and the limit of its term.
    pub fn d(&mut self, gain: i32, limit: u32)
        ensures
            *final(self) == (Pid { kd: gain, d_limit: limit, ..*old(self) }),
    {
        self.kd = gain;
        self.d_limit = limit;
    }

    /// Sets the setpoint.
    pub fn setpoint(&mut self, setpoint: i32)
        ensures
            *final(self) == (Pid { setpoint, ..*old(self) }),
    {
        self.setpoint = setpoint;
    }

    /// Clears the accumulator.
    pub fn reset_integral_term(&mut self)
        ensures
            *final(self) == (Pid { integral_term: 0, ..*old(self) }),
    {
        self.integral_term = 0;
    }

    /// Takes one measurement and returns the terms and the output for it.
    pub fn next_control_output(&mut self, measurement: i32) -> (out: ControlOutput)
        ensures
            out.p == old(self).p_term(measurement as int),
            out.i == old(self).i_term(measurement as int),
            out.d == old(self).d_term(measurement as int),
            out.output == old(self).output(measurement as int),
            *final(self) == old(self).next(measurement),
    {
        let error: i64 = self.setpoint as i64 - measurement as i64;
        let p_unbounded: i128 = product(error, self.kp);
        let p: i64 = apply_limit(self.p_limit, p_unbounded);

        let i_unbounded: i128 = self.integral_term as i128 + product(error, self.ki);
        self.integral_term = apply_limit(self.i_limit, i_unbounded);

        let rise: i64 = match self.prev_measurement {
            Some(prev_measurement) => measurement as i64 - prev_measurement as i64,
            None => 0,
        };
        let d_unbounded: i128 = product(-rise, self.kd);
        self.prev_measurement = Some(measurement);
        let d: i64 = apply_limit(self.d_limit, d_unbounded);

        let output: i64 = apply_limit(self.output_limit, (p + self.integral_term + d) as i128);

        ControlOutput { p, i: self.integral_term, d, output }
    }
}

/// A difference of two measurements times a gain.
fn product(difference: i64, gain: i32) -> (r: i128)
    requires
        -0x1_0000_0000 < difference < 0x1_0000_0000,
    ensures
        r == difference * gain,
        -0x8000_0000_0000_0000 <= r <= 0x8000_0000_0000_0000,
{
    assert(-0x8000_0000_0000_0000 <= difference * gain <= 0x8000_0000_0000_0000)
        by (nonlinear_arith)
        requires
            -0x1_0000_0000 < difference < 0x1_0000_0000,
            -0x8000_0000 <= gain < 0x8000_0000,
    ;
    difference as i128 * gain as i128
}

/// Holds `value` within `-limit` and `limit`.
fn apply_limit(limit: u32, value: i128) -> (r: i64)
    ensures
        r == limited(limit as int, value as int),
        -limit <= r <= limit,
{
    let bound: i128 = limit as i128;
    if value > bound {
        limit as i64
    } else if value < -bound {
        -(limit as i64)
    } else {
        value as i64
    }
}

/// Every term stays within its limit, and the output within the output limit:
/// however long the error lasts, the integral term cannot wind up past its
/// limit.
pub proof fn lemma_terms_within_limits(pid: Pid, measurement: int)
    ensures
        -pid.p_limit <= pid.p_term(measurement) <= pid.p_limit,
        -pid.i_limit <= pid.i_term(measurement) <= pid.i_limit,
        -pid.d_limit <= pid.d_term(measurement) <= pid.d_limit,
        -pid.output_limit <= pid.output(measurement) <= pid.output_limit,
{
}

/// With all three gains zero and the integral and derivative limits zero, the
/// output is zero and the accumulator is cleared, whatever was accumulated
/// before and whatever the error is.
pub proof fn lemma_zero_gains_give_zero(pid: Pid, measurement: int)
    requires
        pid.kp == 0,
        pid.ki == 0,
        pid.kd == 0,
        pid.i_limit == 0,
        pid.d_limit == 0,
    ensures
        pid.p_term(measurement) == 0,
        pid.i_term(measurement) == 0,
        pid.d_term(measurement) == 0,
        pid.output(measurement) == 0,
{
}

} // verus!
