//! The parameters of the breathing effect, handed to the engine when it is
//! built, and the values of the board the firmware was written for.

use vstd::prelude::*;

verus! {

/// Frequency of the free-running timer, in Hz.
pub const TIMER_FREQ: u64 = 160_000_000;

/// Frequency of the PWM carrier, in Hz.
pub const PWM_FREQ: u64 = 1_000;

/// Number of duty levels above zero: zero is fully off, `DUTY_STEPS` fully on.
pub const DUTY_STEPS: u64 = 100;

/// PWM periods for which each duty level is held.
pub const CYCLES_PER_STEP: u64 = 2;

/// Timing and resolution of the breathing effect.
#[derive(Clone, Copy, Debug, PartialEq, Eq)]
pub struct Config {
    /// Timer ticks in one PWM period.
    pub pwm_period: u64,
    /// Number of duty levels above zero.
    pub duty_steps: u64,
    /// PWM periods for which each duty level is held.
    pub cycles_per_step: u64,
}

impl Config {
    /// A configuration an engine can run on: there is at least one duty step,
    /// and each lasts at least one period.
    pub open spec fn valid(self) -> bool {
        self.duty_steps >= 1 && self.cycles_per_step >= 1
    }

    /// Derives the period from the timer's and the carrier's frequency:
    /// `timer_freq / pwm_freq` ticks, rounded down. There is no period for a
    /// carrier of 0 Hz.
    pub fn from_frequencies(
        timer_freq: u64,
        pwm_freq: u64,
        duty_steps: u64,
        cycles_per_step: u64,
    ) -> (config: Option<Config>)
        ensures
            config.is_some() <==> pwm_freq != 0,
            pwm_freq != 0 ==> config == Some(
                (Config {
                    pwm_period: (timer_freq as nat / pwm_freq as nat) as u64,
                    duty_steps,
                    cycles_per_step,
                }),
            ),
    {
        if pwm_freq == 0 {
            None
        } else {
            Some(Config { pwm_period: timer_freq / pwm_freq, duty_steps, cycles_per_step })
        }
    }

    /// The configuration of the board: a 160 MHz timer, a 1 kHz carrier, 100
    /// duty steps of two periods each.
    pub fn board() -> (config: Config)
        ensures
            config == (Config { pwm_period: 160_000, duty_steps: 100, cycles_per_step: 2 }),
            config.valid(),
    {
        Config {
            pwm_period: TIMER_FREQ / PWM_FREQ,
            duty_steps: DUTY_STEPS,
            cycles_per_step: CYCLES_PER_STEP,
        }
    }

    /// Tells whether an engine can run on this configuration.
    pub fn is_valid(&self) -> (ok: bool)
        ensures
            ok == self.valid(),
    {
        self.duty_steps >= 1 && self.cycles_per_step >= 1
    }
}

} // verus!
