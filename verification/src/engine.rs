//! The breathing engine: one decision per reading of the timer. Inside a PWM
//! period it says which level the output should have and asks for a write
//! only when that level differs from the one last written; at the end of a
//! period it starts the next one and takes the envelope over the boundary.

use crate::config::Config;
use crate::envelope::Envelope;
use crate::pwm::changes;
use crate::pwm::desired_level;
use crate::pwm::lemma_changes_with_first;
use crate::pwm::lemma_level_falls_at_most_once;
use crate::pwm::level_at;
use crate::pwm::levels_at;
use crate::pwm::on_ticks;
use crate::pwm::on_ticks_of;
use crate::wave::Event;
use crate::wave::Wave;
use vstd::prelude::*;

verus! {

/// What the control loop has to do after a poll.
#[derive(Clone, Copy, Debug, PartialEq, Eq, Structural)]
pub enum Action {
    /// Nothing: the output already has the level it should have.
    Hold,
    /// Write this level to the output.
    Drive(bool),
    /// A period ended and the next one began at the polled instant. The
    /// output is left alone; the loop reads the timer and polls again.
    Boundary(Event),
}

/// The engine's state as mathematics.
pub struct EngineState {
    /// Timer ticks in one PWM period.
    pub pwm_period: nat,
    /// The envelope.
    pub wave: Wave,
    /// The tick at which the present period began.
    pub cycle_start: u64,
    /// The level last written to the output.
    pub led_on: bool,
}

impl EngineState {
    /// The state of an engine built at tick `now`: the envelope at rest, the
    /// first period beginning now, the output low.
    pub open spec fn start(config: Config, now: u64) -> EngineState {
        EngineState {
            pwm_period: config.pwm_period as nat,
            wave: Wave::start(config.duty_steps as nat, config.cycles_per_step as nat),
            cycle_start: now,
            led_on: false,
        }
    }

    /// Ticks since the present period began, counted round the 64-bit
    /// boundary of the timer.
    pub open spec fn elapsed(self, now: u64) -> nat {
        if now >= self.cycle_start {
            (now - self.cycle_start) as nat
        } else {
            (now - self.cycle_start + 0x1_0000_0000_0000_0000) as nat
        }
    }

    /// The present period is over at tick `now`.
    pub open spec fn period_over(self, now: u64) -> bool {
        self.elapsed(now) >= self.pwm_period
    }

    /// Ticks of each period during which the output is high at the present
    /// duty.
    pub open spec fn on_ticks(self) -> nat {
        on_ticks_of(self.pwm_period, self.wave.duty, self.wave.duty_steps)
    }

    /// The level the output should have at tick `now`.
    pub open spec fn wanted(self, now: u64) -> bool {
        level_at(self.elapsed(now), self.on_ticks())
    }

    /// What the loop is told to do at tick `now`.
    pub open spec fn action(self, now: u64) -> Action {
        if self.period_over(now) {
            Action::Boundary(self.wave.event())
        } else if self.wanted(now) != self.led_on {
            Action::Drive(self.wanted(now))
        } else {
            Action::Hold
        }
    }

    /// The state after a poll at tick `now`.
    pub open spec fn polled(self, now: u64) -> EngineState {
        if self.period_over(now) {
            EngineState { wave: self.wave.next(), cycle_start: now, ..self }
        } else {
            EngineState { led_on: self.wanted(now), ..self }
        }
    }

    /// The state after polls at the ticks `nows`, in order.
    pub open spec fn after_polls(self, nows: Seq<u64>) -> EngineState
        decreases nows.len(),
    {
        if nows.len() == 0 {
            self
        } else {
            self.after_polls(nows.drop_last()).polled(nows.last())
        }
    }

    /// Number of writes to the output that polls at the ticks `nows` ask for.
    pub open spec fn writes(self, nows: Seq<u64>) -> nat
        decreases nows.len(),
    {
        if nows.len() == 0 {
            0
        } else {
            let last_writes: nat = if self.after_polls(nows.drop_last()).action(nows.last())
                is Drive {
                1
            } else {
                0
            };
            self.writes(nows.drop_last()) + last_writes
        }
    }

    /// Number of polls at the ticks `nows` that find their period over.
    pub open spec fn boundaries(self, nows: Seq<u64>) -> nat
        decreases nows.len(),
    {
        if nows.len() == 0 {
            0
        } else {
            let last_ends: nat = if self.after_polls(nows.drop_last()).period_over(nows.last()) {
                1
            } else {
                0
            };
            self.boundaries(nows.drop_last()) + last_ends
        }
    }

    /// Every tick of `nows` lies inside the present period.
    pub open spec fn within_period(self, nows: Seq<u64>) -> bool {
        forall|i: int| 0 <= i < nows.len() ==> !self.period_over(#[trigger] nows[i])
    }

    /// The ticks `nows` counted from the beginning of the present period.
    pub open spec fn elapsed_at(self, nows: Seq<u64>) -> Seq<nat> {
        Seq::new(nows.len(), |i: int| self.elapsed(nows[i]))
    }

    /// The levels that the output should have at the ticks `nows`.
    pub open spec fn wanted_at(self, nows: Seq<u64>) -> Seq<bool> {
        levels_at(self.elapsed_at(nows), self.on_ticks())
    }
}

/// The envelope moves at period boundaries and nowhere else: whatever the
/// ticks polled, the envelope afterwards is the one at the beginning taken
/// over as many boundaries as there were polls that found their period over.
pub proof fn lemma_envelope_counts_boundaries(state: EngineState, nows: Seq<u64>)
    ensures
        state.after_polls(nows).wave == state.wave.after(state.boundaries(nows)),
        state.after_polls(nows).pwm_period == state.pwm_period,
    decreases nows.len(),
{
    if nows.len() > 0 {
        lemma_envelope_counts_boundaries(state, nows.drop_last());
    }
}

/// The output is written only when its level changes. Over polls that all
/// fall inside the present period, the engine asks for exactly as many writes
/// as there are changes in the run of levels that begins with the level last
/// written and goes on with the level wanted at each poll; and it ends holding
/// the level wanted at the last poll, with nothing else altered.
pub proof fn lemma_one_write_per_change(state: EngineState, nows: Seq<u64>)
    requires
        state.within_period(nows),
    ensures
        state.writes(nows) == changes(seq![state.led_on] + state.wanted_at(nows)),
        state.after_polls(nows) == (EngineState {
            led_on: if nows.len() == 0 {
                state.led_on
            } else {
                state.wanted(nows.last())
            },
            ..state
        }),
    decreases nows.len(),
{
    let levels = seq![state.led_on] + state.wanted_at(nows);
    if nows.len() > 0 {
        let front = nows.drop_last();
        let seen = seq![state.led_on] + state.wanted_at(front);
        assert(state.within_period(front)) by {
            assert forall|i: int| 0 <= i < front.len() implies !state.period_over(
                #[trigger] front[i],
            ) by {
                assert(front[i] == nows[i]);
            }
        }
        lemma_one_write_per_change(state, front);
        assert(levels.drop_last() =~= seen);
        let held = state.after_polls(front);
        assert(held.led_on == seen.last());
        assert(levels[levels.len() - 2] == seen.last());
        assert(!held.period_over(nows.last())) by {
            assert(!state.period_over(nows[nows.len() - 1]));
        }
        assert(held.wanted(nows.last()) == state.wanted(nows.last()));
        assert(levels.last() == state.wanted(nows.last()));
    }
}

/// Within one period the output is written at most twice: over polls that
/// follow one another inside the present period, the wanted level falls at
/// most once, so after at most one write that brings the output to the level
/// wanted at the first poll there is at most one more, from high to low.
pub proof fn lemma_writes_within_a_period(state: EngineState, nows: Seq<u64>)
    requires
        state.within_period(nows),
        forall|i: int, j: int|
            0 <= i < j < nows.len() ==> state.elapsed(nows[i]) < state.elapsed(nows[j]),
    ensures
        changes(state.wanted_at(nows)) <= 1,
        state.writes(nows) <= 2,
        nows.len() > 0 && state.led_on == state.wanted(nows[0]) ==> state.writes(nows) <= 1,
{
    lemma_one_write_per_change(state, nows);
    lemma_level_falls_at_most_once(state.elapsed_at(nows), state.on_ticks());
    lemma_changes_with_first(state.led_on, state.wanted_at(nows));
}

/// The breathing engine.
#[derive(Clone, Copy, Debug, PartialEq, Eq)]
pub struct Engine {
    pwm_period: u64,
    envelope: Envelope,
    cycle_start: u64,
    led_on: bool,
}

impl View for Engine {
    type V = EngineState;

    closed spec fn view(&self) -> EngineState {
        EngineState {
            pwm_period: self.pwm_period as nat,
            wave: self.envelope@,
            cycle_start: self.cycle_start,
            led_on: self.led_on,
        }
    }
}

impl Engine {
    /// Builds an engine whose first period begins at tick `now`, with the
    /// envelope at rest and the output taken to be low. A configuration
    /// without duty steps, or whose steps last no period, gives no engine.
    pub fn new(config: Config, now: u64) -> (engine: Option<Engine>)
        ensures
            engine.is_some() <==> config.valid(),
            engine.is_some() ==> engine.unwrap()@ == EngineState::start(config, now),
            engine.is_some() ==> engine.unwrap()@.wave.valid(),
    {
        match Envelope::new(config.duty_steps, config.cycles_per_step) {
            Some(envelope) => Some(
                Engine { pwm_period: config.pwm_period, envelope, cycle_start: now, led_on: false },
            ),
            None => None,
        }
    }

    /// Decides what to do at tick `now`, a fresh reading of the timer.
    ///
    /// When the present period is over, the next one begins at `now` and the
    /// envelope passes the boundary; the output is not touched in that poll.
    /// Otherwise the output should be high for the first `on_ticks` ticks of
    /// the period and low for the rest, and a write is asked for only if that
    /// differs from the level last written.
    pub fn poll(&mut self, now: u64) -> (action: Action)
        ensures
            old(self)@.wave.valid(),
            final(self)@ == old(self)@.polled(now),
            final(self)@.wave.valid(),
            action == old(self)@.action(now),
    {
        let ghost before = self@;
        let elapsed: u64 = now.wrapping_sub(self.cycle_start);
        assert(elapsed == before.elapsed(now));
        if elapsed >= self.pwm_period {
            let event = self.envelope.on_boundary();
            self.cycle_start = now;
            Action::Boundary(event)
        } else {
            let ticks: u64 = on_ticks(
                self.pwm_period,
                self.envelope.duty(),
                self.envelope.duty_steps(),
            );
            let want: bool = desired_level(elapsed, ticks);
            if want != self.led_on {
                self.led_on = want;
                Action::Drive(want)
            } else {
                Action::Hold
            }
        }
    }

    /// The envelope as it stands.
    pub fn envelope(&self) -> (envelope: Envelope)
        ensures
            envelope@ == self@.wave,
    {
        self.envelope
    }

    /// The present duty.
    pub fn duty(&self) -> (duty: u64)
        ensures
            duty == self@.wave.duty,
    {
        self.envelope.duty()
    }

    /// The level last written to the output.
    pub fn led_on(&self) -> (on: bool)
        ensures
            on == self@.led_on,
    {
        self.led_on
    }

    /// The tick at which the present period began.
    pub fn cycle_start(&self) -> (tick: u64)
        ensures
            tick == self@.cycle_start,
    {
        self.cycle_start
    }

    /// Timer ticks in one PWM period.
    pub fn pwm_period(&self) -> (ticks: u64)
        ensures
            ticks == self@.pwm_period,
    {
        self.pwm_period
    }
}

} // verus!
