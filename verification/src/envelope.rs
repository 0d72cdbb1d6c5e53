//! The envelope in machine integers: the state that the control loop carries
//! from one PWM period to the next.

use crate::wave::Event;
use crate::wave::Wave;
use vstd::prelude::*;

verus! {

/// The duty, its direction and the count of periods for which it has been
/// held. A value of this type is always a valid state of the wave.
#[derive(Clone, Copy, Debug, PartialEq, Eq)]
pub struct Envelope {
    duty_steps: u64,
    cycles_per_step: u64,
    duty: u64,
    rising: bool,
    cycle_count: u64,
}

impl View for Envelope {
    type V = Wave;

    closed spec fn view(&self) -> Wave {
        Wave {
            duty_steps: self.duty_steps as nat,
            cycles_per_step: self.cycles_per_step as nat,
            duty: self.duty as nat,
            rising: self.rising,
            cycle_count: self.cycle_count as nat,
        }
    }
}

impl Envelope {
    #[verifier::type_invariant]
    spec fn inv(&self) -> bool {
        self@.valid()
    }

    /// The envelope at rest, dark and about to rise, for `duty_steps` levels
    /// held `cycles_per_step` periods each. Neither number may be zero.
    pub fn new(duty_steps: u64, cycles_per_step: u64) -> (envelope: Option<Envelope>)
        ensures
            envelope.is_some() <==> duty_steps >= 1 && cycles_per_step >= 1,
            envelope.is_some() ==> envelope.unwrap()@ == Wave::start(
                duty_steps as nat,
                cycles_per_step as nat,
            ),
    {
        if duty_steps == 0 || cycles_per_step == 0 {
            None
        } else {
            Some(Envelope { duty_steps, cycles_per_step, duty: 0, rising: true, cycle_count: 0 })
        }
    }

    /// Takes the envelope over one period boundary and reports what happened:
    /// the hold goes on, or the duty moves one step, turning round at the top
    /// and at zero.
    pub fn on_boundary(&mut self) -> (event: Event)
        ensures
            old(self)@.valid(),
            final(self)@ == old(self)@.next(),
            final(self)@.valid(),
            event == old(self)@.event(),
    {
        proof {
            use_type_invariant(&*self);
            crate::wave::lemma_next_position(self@);
        }
        let held: u64 = self.cycle_count + 1;
        if held < self.cycles_per_step {
            self.cycle_count = held;
            Event::Held
        } else if self.rising {
            let duty: u64 = self.duty + 1;
            let top: bool = duty >= self.duty_steps;
            *self = Envelope { duty, rising: !top, cycle_count: 0, ..*self };
            if top {
                Event::Peak
            } else {
                Event::Stepped
            }
        } else {
            let duty: u64 = self.duty - 1;
            let bottom: bool = duty == 0;
            *self = Envelope { duty, rising: bottom, cycle_count: 0, ..*self };
            if bottom {
                Event::Trough
            } else {
                Event::Stepped
            }
        }
    }

    /// The present duty, between zero and `duty_steps`.
    pub fn duty(&self) -> (duty: u64)
        ensures
            duty == self@.duty,
            self@.valid(),
    {
        proof {
            use_type_invariant(self);
        }
        self.duty
    }

    /// Whether the duty is on its way up.
    pub fn rising(&self) -> (rising: bool)
        ensures
            rising == self@.rising,
    {
        self.rising
    }

    /// Periods for which the present duty has been held.
    pub fn cycle_count(&self) -> (count: u64)
        ensures
            count == self@.cycle_count,
    {
        self.cycle_count
    }

    /// Number of duty levels above zero.
    pub fn duty_steps(&self) -> (steps: u64)
        ensures
            steps == self@.duty_steps,
    {
        self.duty_steps
    }

    /// Periods for which each duty level is held.
    pub fn cycles_per_step(&self) -> (cycles: u64)
        ensures
            cycles == self@.cycles_per_step,
    {
        self.cycles_per_step
    }
}

} // verus!
