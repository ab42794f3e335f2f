//! What the oven does in each control cycle.
//!
//! The control worker wakes at a fixed cadence, takes the latest reading and
//! the curve's sample for the elapsed time, and asks here for the command and
//! for what the heater and the status LED are to do. It then drives the pin
//! and sends the frame; none of that happens in this module.

use crate::led::{frame_pulses, green_led, off, pulses_of, red_led, PulseCode, PulseFrame};
use crate::profile::{Profile, COOLING_START_MS};
use vstd::prelude::*;

verus! {

/// Milliseconds between two polls of the thermocouple amplifier.
pub const SENSOR_PERIOD_MS: u64 = 100;

/// Milliseconds between two control cycles.
pub const CONTROL_PERIOD_MS: u64 = 50;

/// Milliseconds between two looks at the reading while the oven is brought to
/// the heat-soak temperature.
pub const HEATSOAK_PERIOD_MS: u64 = 1_000;

/// Milliseconds between start-up and the first look of the control worker at
/// the reading, so that the sensor worker has published one by then.
pub const STARTUP_DELAY_MS: u64 = 5_000;

/// First line of the log: the names of the four values of a row, in order.
pub const LOG_HEADER: &'static str =
    "runtime,desired_temperature,current_temperature,control_output";

/// What the status LED shows.
#[derive(Clone, Copy, Debug, PartialEq, Eq, Structural)]
pub enum Indicator {
    /// Dark: the heater is off and the run is not over.
    Off,
    /// Red: the heater is on.
    Heating,
    /// Green: the cooling time has passed.
    Idle,
}

/// What the heater and the status LED are to do.
#[derive(Clone, Copy, Debug, PartialEq, Eq, Structural)]
pub struct Actuation {
    /// Whether the heater output is high.
    pub heater_on: bool,
    /// What the status LED shows.
    pub indicator: Indicator,
}

/// One control cycle: the four values of its log row, in the order of the
/// row, and what the heater and the LED are to do.
#[derive(Clone, Copy, Debug, PartialEq, Eq, Structural)]
pub struct Cycle {
    /// Milliseconds since the start of the run.
    pub runtime_ms: i64,
    /// Setpoint, in sixteenths of a degree.
    pub desired_temperature: i32,
    /// Latest reading, in sixteenths of a degree.
    pub current_temperature: i32,
    /// Heater command, between zero and full power.
    pub control_output: i64,
    /// What the heater and the LED are to do.
    pub actuation: Actuation,
}

impl Indicator {
    /// The colour of the LED, as red, green and blue.
    pub open spec fn colour(self) -> (u8, u8, u8) {
        match self {
            Indicator::Off => (0, 0, 0),
            Indicator::Heating => (255, 0, 0),
            Indicator::Idle => (0, 255, 0),
        }
    }

    /// The frame for the colour.
    pub open spec fn pulses(self) -> Seq<PulseCode> {
        frame_pulses(self.colour().0, self.colour().1, self.colour().2)
    }

    /// The frame that shows this on the LED.
    pub fn frame(&self) -> (r: Result<PulseFrame, PulseCode>)
        ensures
            r is Ok,
            pulses_of(r.unwrap()) == self.pulses(),
    {
        match self {
            Indicator::Off => off(),
            Indicator::Heating => red_led(),
            Indicator::Idle => green_led(),
        }
    }
}

/// The rule for heater and LED: once the cooling time has passed the heater is
/// off and the LED green; before that the heater is on, and the LED red,
/// exactly while the command is positive.
pub open spec fn actuation_for(
    cooling_time_target: int,
    runtime_ms: int,
    control_output: int,
) -> Actuation {
    if runtime_ms > cooling_time_target {
        Actuation { heater_on: false, indicator: Indicator::Idle }
    } else if control_output > 0 {
        Actuation { heater_on: true, indicator: Indicator::Heating }
    } else {
        Actuation { heater_on: false, indicator: Indicator::Off }
    }
}

/// The rule before the run: the heater is on, and the LED red, exactly while
/// the reading is below the heat-soak temperature.
pub open spec fn heatsoak_for(target: int, current_temperature: int) -> Actuation {
    if current_temperature < target {
        Actuation { heater_on: true, indicator: Indicator::Heating }
    } else {
        Actuation { heater_on: false, indicator: Indicator::Off }
    }
}

/// The cycle that a profile, a time, a sample and a reading give.
pub open spec fn cycle_of(
    profile: Profile,
    runtime_ms: i64,
    sample: Option<i32>,
    current_temperature: i32,
) -> Cycle {
    let control_output = profile.command(runtime_ms as int, sample, current_temperature as int);
    Cycle {
        runtime_ms,
        desired_temperature: profile.setpoint_at(runtime_ms as int, sample),
        current_temperature,
        control_output: control_output as i64,
        actuation: actuation_for(
            profile.cooling_time_target as int,
            runtime_ms as int,
            control_output,
        ),
    }
}

/// Decides what heater and LED do for a command at a time.
pub fn actuate(profile: &Profile, runtime_ms: i64, control_output: i64) -> (actuation: Actuation)
    ensures
        actuation == actuation_for(
            profile.cooling_time_target as int,
            runtime_ms as int,
            control_output as int,
        ),
{
    if runtime_ms > profile.cooling_time_target {
        Actuation { heater_on: false, indicator: Indicator::Idle }
    } else if control_output > 0 {
        Actuation { heater_on: true, indicator: Indicator::Heating }
    } else {
        Actuation { heater_on: false, indicator: Indicator::Off }
    }
}

/// Decides what heater and LED do before the run, while the oven is brought
/// to the heat-soak temperature. The run starts once the heater is off.
pub fn heatsoak(profile: &Profile, current_temperature: i32) -> (actuation: Actuation)
    ensures
        actuation == heatsoak_for(
            profile.heatsoak_temperature_target as int,
            current_temperature as int,
        ),
{
    if current_temperature < profile.heatsoak_temperature_target {
        Actuation { heater_on: true, indicator: Indicator::Heating }
    } else {
        Actuation { heater_on: false, indicator: Indicator::Off }
    }
}

/// Runs one control cycle: steps the controller and decides what heater and
/// LED do. `sample` is what sampling the curve at `runtime_ms` returned.
pub fn adjust_temperature(
    profile: &mut Profile,
    runtime_ms: i64,
    sample: Option<i32>,
    current_temperature: i32,
) -> (cycle: Cycle)
    ensures
        cycle == cycle_of(*old(profile), runtime_ms, sample, current_temperature),
        *final(profile) == old(profile).after_step(runtime_ms as int, sample, current_temperature),
        old(profile).wf() ==> final(profile).wf(),
        runtime_ms >= COOLING_START_MS ==> cycle.control_output == 0 && !cycle.actuation.heater_on,
{
    let desired_temperature: i32 = profile.desired_temperature(runtime_ms, sample);
    let control_output: i64 = profile.control_output(runtime_ms, sample, current_temperature);
    let actuation = actuate(profile, runtime_ms, control_output);
    Cycle { runtime_ms, desired_temperature, current_temperature, control_output, actuation }
}

/// The heater is on only while the command is positive and the cooling time
/// has not passed.
pub proof fn lemma_heater_follows_command(
    cooling_time_target: int,
    runtime_ms: int,
    control_output: int,
)
    ensures
        actuation_for(cooling_time_target, runtime_ms, control_output).heater_on <==> (
        control_output > 0 && runtime_ms <= cooling_time_target),
        actuation_for(cooling_time_target, runtime_ms, control_output).indicator
            == Indicator::Heating <==> actuation_for(
            cooling_time_target,
            runtime_ms,
            control_output,
        ).heater_on,
{
}

/// From the start of cooling on, the command is zero and the heater is off,
/// whatever the profile has been through before, whatever the cooling time
/// is set to and however far the reading is from the setpoint.
pub proof fn lemma_heater_off_in_cooling(
    profile: Profile,
    runtime_ms: i64,
    sample: Option<i32>,
    current_temperature: i32,
)
    requires
        runtime_ms >= COOLING_START_MS,
    ensures
        cycle_of(profile, runtime_ms, sample, current_temperature).control_output == 0,
        !cycle_of(profile, runtime_ms, sample, current_temperature).actuation.heater_on,
{
    crate::pid::lemma_zero_gains_give_zero(
        profile.tuned(runtime_ms as int, sample),
        current_temperature as int,
    );
}

} // verus!
