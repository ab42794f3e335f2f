//! The reflow profile and the controller that follows it.
//!
//! A profile is a table of keyframes, target temperature against time, through
//! which a smooth curve is laid. The curve itself is sampled outside this
//! crate; what is decided here is when a sample counts, which gains the
//! controller runs with, and what command comes out.
//!
//! Times are in milliseconds since the start of the run, temperatures in
//! sixteenths of a degree Celsius, gains in thousandths, and commands in
//! sixteen-thousandths of a percent of full heater power.

use crate::pid::{lemma_zero_gains_give_zero, Pid};
use vstd::prelude::*;

verus! {

/// Setpoint where the curve has no value.
pub const FALLBACK_TEMPERATURE: i32 = 0;

/// Command units in one percent of full power.
pub const OUTPUT_PER_PERCENT: i64 = 16_000;

/// The command for full power: one hundred percent.
pub const FULL_OUTPUT: i64 = 1_600_000;

/// Time at which preheating ends and the soak begins.
pub const SOAK_START_MS: i64 = 30_000;

/// Time at which the soak ends and the ramp to the peak begins.
pub const REFLOW_START_MS: i64 = 120_000;

/// Time at which the ramp ends and cooling begins.
pub const COOLING_START_MS: i64 = 210_000;

/// One point of the profile.
#[derive(Clone, Copy, Debug, PartialEq, Eq, Structural)]
pub struct Keyframe {
    /// Milliseconds since the start of the run.
    pub time_ms: i64,
    /// Target temperature in sixteenths of a degree.
    pub target: i32,
}

/// The stage of the run, which selects the gains.
#[derive(Clone, Copy, Debug, PartialEq, Eq, Structural)]
pub enum ControlPhase {
    Preheat,
    Soak,
    ReflowRamp,
    Cooling,
}

/// Gains in thousandths, each with the limit of its term in command units.
#[derive(Clone, Copy, Debug, PartialEq, Eq, Structural)]
pub struct Gains {
    pub kp: i32,
    pub p_limit: u32,
    pub ki: i32,
    pub i_limit: u32,
    pub kd: i32,
    pub d_limit: u32,
}

impl ControlPhase {
    /// Place of the phase in the order in which a run passes through them.
    pub open spec fn rank(self) -> int {
        match self {
            ControlPhase::Preheat => 0,
            ControlPhase::Soak => 1,
            ControlPhase::ReflowRamp => 2,
            ControlPhase::Cooling => 3,
        }
    }
}

/// The phase at a time: a function of the time alone.
pub open spec fn phase_of(time_ms: int) -> ControlPhase {
    if time_ms < SOAK_START_MS {
        ControlPhase::Preheat
    } else if time_ms < REFLOW_START_MS {
        ControlPhase::Soak
    } else if time_ms < COOLING_START_MS {
        ControlPhase::ReflowRamp
    } else {
        ControlPhase::Cooling
    }
}

/// The gains of each phase. Cooling has no gain at all, and no room for an
/// integral or derivative term.
pub open spec fn gain_table(phase: ControlPhase) -> Gains {
    match phase {
        ControlPhase::Preheat => Gains {
            kp: 2_000,
            p_limit: 160_000,
            ki: 5,
            i_limit: 4_800,
            kd: 1_000,
            d_limit: 16_000,
        },
        ControlPhase::Soak => Gains {
            kp: 2_000,
            p_limit: 160_000,
            ki: 10,
            i_limit: 12_800,
            kd: 2_000,
            d_limit: 16_000,
        },
        ControlPhase::ReflowRamp => Gains {
            kp: 2_500,
            p_limit: 160_000,
            ki: 5,
            i_limit: 8_000,
            kd: 3_000,
            d_limit: 16_000,
        },
        ControlPhase::Cooling => Gains {
            kp: 0,
            p_limit: 160_000,
            ki: 0,
            i_limit: 0,
            kd: 0,
            d_limit: 0,
        },
    }
}

/// The keyframes of the profile: 25 degrees at the start, 100 after 30 s, 150
/// after 120 s, 183 after 150 s, the peak of 235 after 210 s, and back down.
/// The first and the last keyframe only steady the curve at its ends.
pub open spec fn reflow_keyframes() -> Seq<Keyframe> {
    seq![
        Keyframe { time_ms: -1_000i64, target: 400 },
        Keyframe { time_ms: 0, target: 400 },
        Keyframe { time_ms: 30_000, target: 1_600 },
        Keyframe { time_ms: 120_000, target: 2_400 },
        Keyframe { time_ms: 150_000, target: 2_928 },
        Keyframe { time_ms: 210_000, target: 3_760 },
        Keyframe { time_ms: 240_000, target: 2_928 },
        Keyframe { time_ms: 270_000, target: 400 },
        Keyframe { time_ms: 300_000, target: 400 },
    ]
}

/// Keyframe times increase strictly.
pub open spec fn strictly_increasing(keyframes: Seq<Keyframe>) -> bool {
    forall|i: int, j: int|
        0 <= i < j < keyframes.len() ==> keyframes[i].time_ms < keyframes[j].time_ms
}

/// The phase at a time.
pub fn phase_at(time_ms: i64) -> (phase: ControlPhase)
    ensures
        phase == phase_of(time_ms as int),
{
    if time_ms < SOAK_START_MS {
        ControlPhase::Preheat
    } else if time_ms < REFLOW_START_MS {
        ControlPhase::Soak
    } else if time_ms < COOLING_START_MS {
        ControlPhase::ReflowRamp
    } else {
        ControlPhase::Cooling
    }
}

/// The gains of a phase.
pub fn gains_for(phase: ControlPhase) -> (gains: Gains)
    ensures
        gains == gain_table(phase),
{
    match phase {
        ControlPhase::Preheat => Gains {
            kp: 2_000,
            p_limit: 160_000,
            ki: 5,
            i_limit: 4_800,
            kd: 1_000,
            d_limit: 16_000,
        },
        ControlPhase::Soak => Gains {
            kp: 2_000,
            p_limit: 160_000,
            ki: 10,
            i_limit: 12_800,
            kd: 2_000,
            d_limit: 16_000,
        },
        ControlPhase::ReflowRamp => Gains {
            kp: 2_500,
            p_limit: 160_000,
            ki: 5,
            i_limit: 8_000,
            kd: 3_000,
            d_limit: 16_000,
        },
        ControlPhase::Cooling => Gains {
            kp: 0,
            p_limit: 160_000,
            ki: 0,
            i_limit: 0,
            kd: 0,
            d_limit: 0,
        },
    }
}

/// A reflow profile with its controller.
pub struct Profile {
    /// The keyframes, in order of time.
    pub keyframes: Vec<Keyframe>,
    /// The controller, with the state that it carries from step to step.
    pub pid: Pid,
    /// Temperature that the oven is brought to before the run starts.
    pub heatsoak_temperature_target: i32,
    /// Time after which the heater stays off.
    pub cooling_time_target: i64,
}

impl Profile {
    /// Keyframe times increase strictly.
    pub open spec fn wf(self) -> bool {
        strictly_increasing(self.keyframes@)
    }

    /// Whether the curve has a value at a time. A curve through keyframes
    /// needs a keyframe before the segment and one behind it, so its domain
    /// runs from the second keyframe up to, and not including, the last but
    /// one.
    pub open spec fn in_domain(self, time_ms: int) -> bool {
        &&& self.keyframes@.len() >= 4
        &&& self.keyframes@[1].time_ms <= time_ms
        &&& time_ms < self.keyframes@[self.keyframes@.len() - 2].time_ms
    }

    /// The setpoint at a time, given what sampling the curve there returned:
    /// the sample inside the domain, the fallback outside it or without one.
    pub open spec fn setpoint_at(self, time_ms: int, sample: Option<i32>) -> i32 {
        if self.in_domain(time_ms) && sample is Some {
            sample.unwrap()
        } else {
            FALLBACK_TEMPERATURE
        }
    }

    /// The controller as it stands in a step at a time: the setpoint from the
    /// curve, gains and limits from the phase, the state as it was.
    pub open spec fn tuned(self, time_ms: int, sample: Option<i32>) -> Pid {
        Pid {
            setpoint: self.setpoint_at(time_ms, sample),
            kp: gain_table(phase_of(time_ms)).kp,
            p_limit: gain_table(phase_of(time_ms)).p_limit,
            ki: gain_table(phase_of(time_ms)).ki,
            i_limit: gain_table(phase_of(time_ms)).i_limit,
            kd: gain_table(phase_of(time_ms)).kd,
            d_limit: gain_table(phase_of(time_ms)).d_limit,
            ..self.pid
        }
    }

    /// The command of a step: the controller's output, held between zero and
    /// full power.
    pub open spec fn command(
        self,
        time_ms: int,
        sample: Option<i32>,
        current_temperature: int,
    ) -> int {
        let raw = self.tuned(time_ms, sample).output(current_temperature);
        if raw < 0 {
            0
        } else if raw > FULL_OUTPUT {
            FULL_OUTPUT as int
        } else {
            raw
        }
    }

    /// The profile after a step: the controller has taken the measurement.
    pub open spec fn after_step(
        self,
        time_ms: int,
        sample: Option<i32>,
        current_temperature: i32,
    ) -> Profile {
        Profile { pid: self.tuned(time_ms, sample).next(current_temperature), ..self }
    }

    /// The profile for the reference solder paste, with a controller that has
    /// the start of the curve as its setpoint and full power as output limit.
    pub fn new() -> (profile: Self)
        ensures
            profile.keyframes@ == reflow_keyframes(),
            profile.pid == Pid::fresh(400, 1_600_000),
            profile.heatsoak_temperature_target == 1_280,
            profile.cooling_time_target == 235_000,
            profile.wf(),
    {
        let heatsoak_target: i32 = 1_280;
        let cooling_time_target: i64 = 235_000;
        let keyframes = vec![
            Keyframe { time_ms: -1_000, target: 400 },
            Keyframe { time_ms: 0, target: 400 },
            Keyframe { time_ms: 30_000, target: 1_600 },
            Keyframe { time_ms: 120_000, target: 2_400 },
            Keyframe { time_ms: 150_000, target: 2_928 },
            Keyframe { time_ms: 210_000, target: 3_760 },
            Keyframe { time_ms: 240_000, target: 2_928 },
            Keyframe { time_ms: 270_000, target: 400 },
            Keyframe { time_ms: 300_000, target: 400 },
        ];
        let pid = Pid::new(400, 1_600_000);
        Profile {
            keyframes,
            pid,
            heatsoak_temperature_target: heatsoak_target,
            cooling_time_target,
        }
    }

    /// Whether the curve has a value at a time.
    pub fn covers(&self, time_ms: i64) -> (inside: bool)
        ensures
            inside == self.in_domain(time_ms as int),
    {
        let len: usize = self.keyframes.len();
        len >= 4 && self.keyframes[1].time_ms <= time_ms
            && time_ms < self.keyframes[len - 2].time_ms
    }

    /// The setpoint at a time. `sample` is what sampling the curve at that
    /// time returned, in sixteenths of a degree.
    pub fn desired_temperature(&self, time_ms: i64, sample: Option<i32>) -> (setpoint: i32)
        ensures
            setpoint == self.setpoint_at(time_ms as int, sample),
    {
        if self.covers(time_ms) {
            match sample {
                Some(value) => value,
                None => FALLBACK_TEMPERATURE,
            }
        } else {
            FALLBACK_TEMPERATURE
        }
    }

    /// Runs one step of the controller and returns the heater command,
    /// between zero and `FULL_OUTPUT`.
    pub fn control_output(
        &mut self,
        time_ms: i64,
        sample: Option<i32>,
        current_temperature: i32,
    ) -> (output: i64)
        ensures
            output == old(self).command(time_ms as int, sample, current_temperature as int),
            *final(self) == old(self).after_step(time_ms as int, sample, current_temperature),
            old(self).wf() ==> final(self).wf(),
            0 <= output <= FULL_OUTPUT,
            time_ms >= COOLING_START_MS ==> output == 0 && final(self).pid.integral_term == 0,
            -final(self).pid.i_limit <= final(self).pid.integral_term <= final(self).pid.i_limit,
    {
        let setpoint: i32 = self.desired_temperature(time_ms, sample);
        self.pid.setpoint(setpoint);

        let gains = gains_for(phase_at(time_ms));
        self.pid.p(gains.kp, gains.p_limit);
        self.pid.i(gains.ki, gains.i_limit);
        self.pid.d(gains.kd, gains.d_limit);

        proof {
            if time_ms >= COOLING_START_MS {
                lemma_zero_gains_give_zero(self.pid, current_temperature as int);
            }
        }
        let output: i64 = self.pid.next_control_output(current_temperature).output;

        if output < 0 {
            0
        } else if output > FULL_OUTPUT {
            FULL_OUTPUT
        } else {
            output
        }
    }
}

/// What one step of the controller is given.
#[derive(Clone, Copy, Debug, PartialEq, Eq, Structural)]
pub struct StepInput {
    /// Milliseconds since the start of the run.
    pub time_ms: i64,
    /// What sampling the curve at that time returned.
    pub sample: Option<i32>,
    /// The latest reading, in sixteenths of a degree.
    pub current_temperature: i32,
}

impl Profile {
    /// The profile after a run of steps, first to last.
    pub open spec fn after_run(self, inputs: Seq<StepInput>) -> Profile
        decreases inputs.len(),
    {
        if inputs.len() == 0 {
            self
        } else {
            let last = inputs.last();
            self.after_run(inputs.drop_last()).after_step(
                last.time_ms as int,
                last.sample,
                last.current_temperature,
            )
        }
    }

    /// The command of the step that follows a run of steps.
    pub open spec fn command_after(self, inputs: Seq<StepInput>, next: StepInput) -> int {
        self.after_run(inputs).command(
            next.time_ms as int,
            next.sample,
            next.current_temperature as int,
        )
    }
}

/// A run passes through the phases in one direction: at a later time the phase
/// is the same or a later one, never an earlier one.
pub proof fn lemma_phases_never_return(earlier_ms: int, later_ms: int)
    requires
        earlier_ms <= later_ms,
    ensures
        phase_of(earlier_ms).rank() <= phase_of(later_ms).rank(),
{
}

/// Outside the domain of the curve the setpoint is the fallback, whatever the
/// sample.
pub proof fn lemma_fallback_outside_domain(profile: Profile, time_ms: int, sample: Option<i32>)
    requires
        !profile.in_domain(time_ms),
    ensures
        profile.setpoint_at(time_ms, sample) == FALLBACK_TEMPERATURE,
{
}

/// The domain of the reference profile runs from the start of the run up to,
/// and not including, 270 s.
pub proof fn lemma_reference_domain(profile: Profile, time_ms: int)
    requires
        profile.keyframes@ == reflow_keyframes(),
    ensures
        profile.in_domain(time_ms) <==> 0 <= time_ms < 270_000,
        strictly_increasing(profile.keyframes@),
{
}

/// Whatever steps a profile has been through, and whatever the next one is
/// given, the command is between zero and full power, the keyframes are
/// what they were, and the integral term is within the limit of the phase of
/// the last step.
pub proof fn lemma_command_in_range(profile: Profile, inputs: Seq<StepInput>, next: StepInput)
    ensures
        0 <= profile.command_after(inputs, next) <= FULL_OUTPUT,
        profile.after_run(inputs).keyframes == profile.keyframes,
        inputs.len() > 0 ==> {
            let limit = gain_table(phase_of(inputs.last().time_ms as int)).i_limit;
            -limit <= profile.after_run(inputs).pid.integral_term <= limit
        },
    decreases inputs.len(),
{
    if inputs.len() > 0 {
        lemma_command_in_range(profile, inputs.drop_last(), inputs.last());
    }
}

/// From the start of cooling on, the command is zero and the integral term is
/// cleared, whatever steps came before, whatever the setpoint and however
/// far the reading is from it.
pub proof fn lemma_cooling_commands_nothing(
    profile: Profile,
    inputs: Seq<StepInput>,
    next: StepInput,
)
    requires
        next.time_ms >= COOLING_START_MS,
    ensures
        profile.command_after(inputs, next) == 0,
        profile.after_run(inputs.push(next)).pid.integral_term == 0,
{
    let before = profile.after_run(inputs);
    lemma_zero_gains_give_zero(
        before.tuned(next.time_ms as int, next.sample),
        next.current_temperature as int,
    );
}

} // verus!
