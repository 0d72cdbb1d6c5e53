//! The triangle wave that the duty follows, as mathematics: the state of the
//! envelope, what one period boundary does to it, and where it stands after
//! any number of boundaries.

use vstd::arithmetic::div_mod::*;
use vstd::prelude::*;

verus! {

/// What a period boundary did to the envelope.
#[derive(Clone, Copy, Debug, PartialEq, Eq, Structural)]
pub enum Event {
    /// The duty is held for another period.
    Held,
    /// The duty moved by one step and the direction stays.
    Stepped,
    /// The duty reached the top and will fall from now on.
    Peak,
    /// The duty reached zero and will rise from now on.
    Trough,
}

/// The envelope: a duty between zero and `duty_steps`, the direction in which
/// it moves, and how many periods the present duty has been held.
pub struct Wave {
    pub duty_steps: nat,
    pub cycles_per_step: nat,
    pub duty: nat,
    pub rising: bool,
    pub cycle_count: nat,
}

impl Wave {
    /// The states the envelope can be in: the duty is in range, a rising
    /// envelope is below the top and a falling one above zero, and the present
    /// duty has been held for fewer periods than a step lasts.
    pub open spec fn valid(self) -> bool {
        &&& self.duty_steps >= 1
        &&& self.cycles_per_step >= 1
        &&& self.duty <= self.duty_steps
        &&& self.cycle_count < self.cycles_per_step
        &&& self.rising ==> self.duty < self.duty_steps
        &&& !self.rising ==> self.duty > 0
    }

    /// The envelope at rest: dark, about to rise.
    pub open spec fn start(duty_steps: nat, cycles_per_step: nat) -> Wave {
        Wave { duty_steps, cycles_per_step, duty: 0, rising: true, cycle_count: 0 }
    }

    /// The coming boundary ends the hold of the present duty.
    pub open spec fn step_due(self) -> bool {
        self.cycle_count + 1 >= self.cycles_per_step
    }

    /// The envelope after one period boundary. The duty moves only when its
    /// hold is over; the direction turns exactly at the top and at zero.
    pub open spec fn next(self) -> Wave {
        if !self.step_due() {
            Wave { cycle_count: self.cycle_count + 1, ..self }
        } else if self.rising {
            Wave {
                duty: self.duty + 1,
                rising: self.duty + 1 < self.duty_steps,
                cycle_count: 0,
                ..self
            }
        } else {
            Wave {
                duty: (self.duty - 1) as nat,
                rising: self.duty - 1 == 0,
                cycle_count: 0,
                ..self
            }
        }
    }

    /// What the coming boundary will report.
    pub open spec fn event(self) -> Event {
        if !self.step_due() {
            Event::Held
        } else if self.rising {
            if self.duty + 1 >= self.duty_steps {
                Event::Peak
            } else {
                Event::Stepped
            }
        } else {
            if self.duty - 1 == 0 {
                Event::Trough
            } else {
                Event::Stepped
            }
        }
    }

    /// The envelope after `n` period boundaries.
    pub open spec fn after(self, n: nat) -> Wave
        decreases n,
    {
        if n == 0 {
            self
        } else {
            self.after((n - 1) as nat).next()
        }
    }

    /// Period boundaries in one breath, from dark to bright and back.
    pub open spec fn span(self) -> nat {
        2 * self.duty_steps * self.cycles_per_step
    }

    /// Duty steps taken since the last trough.
    pub open spec fn rung(self) -> nat {
        if self.rising {
            self.duty
        } else {
            (2 * self.duty_steps - self.duty) as nat
        }
    }

    /// Period boundaries passed since the last trough.
    pub open spec fn position(self) -> nat {
        self.rung() * self.cycles_per_step + self.cycle_count
    }

    /// The envelope `k` period boundaries after a trough: up one step every
    /// `cycles_per_step` boundaries until the top, then down again.
    pub open spec fn at(duty_steps: nat, cycles_per_step: nat, k: nat) -> Wave {
        let rung = k / cycles_per_step;
        let held = k % cycles_per_step;
        if rung < duty_steps {
            Wave { duty_steps, cycles_per_step, duty: rung, rising: true, cycle_count: held }
        } else {
            Wave {
                duty_steps,
                cycles_per_step,
                duty: (2 * duty_steps - rung) as nat,
                rising: false,
                cycle_count: held,
            }
        }
    }
}

/// A valid envelope lies inside its breath.
pub proof fn lemma_position_in_span(w: Wave)
    requires
        w.valid(),
    ensures
        w.rung() < 2 * w.duty_steps,
        w.position() < w.span(),
        w.span() >= 2,
{
    let r = w.rung() as int;
    let s = w.duty_steps as int;
    let c = w.cycles_per_step as int;
    assert(r * c + c <= (2 * s) * c && (2 * s) * c >= 2) by (nonlinear_arith)
        requires
            0 <= r < 2 * s,
            c >= 1,
            s >= 1,
    ;
}

/// A valid envelope is the one that its position in the breath names.
pub proof fn lemma_at_of_position(w: Wave)
    requires
        w.valid(),
    ensures
        Wave::at(w.duty_steps, w.cycles_per_step, w.position()) == w,
{
    lemma_position_in_span(w);
    let c = w.cycles_per_step as int;
    lemma_fundamental_div_mod_converse(
        w.position() as int,
        c,
        w.rung() as int,
        w.cycle_count as int,
    );
}

/// Every position of a breath names a valid envelope, which lies at it.
pub proof fn lemma_position_of_at(duty_steps: nat, cycles_per_step: nat, k: nat)
    requires
        duty_steps >= 1,
        cycles_per_step >= 1,
        k < 2 * duty_steps * cycles_per_step,
    ensures
        Wave::at(duty_steps, cycles_per_step, k).valid(),
        Wave::at(duty_steps, cycles_per_step, k).duty_steps == duty_steps,
        Wave::at(duty_steps, cycles_per_step, k).cycles_per_step == cycles_per_step,
        Wave::at(duty_steps, cycles_per_step, k).position() == k,
{
    let s = duty_steps as int;
    let c = cycles_per_step as int;
    let q = (k as int) / c;
    let r = (k as int) % c;
    lemma_fundamental_div_mod(k as int, c);
    lemma_mod_pos_bound(k as int, c);
    assert(0 <= q < 2 * s) by (nonlinear_arith)
        requires
            k == c * q + r,
            0 <= r < c,
            0 <= k < (2 * s) * c,
    ;
    assert(c * q == q * c) by (nonlinear_arith);
}

/// One period boundary moves a valid envelope one position on in its breath,
/// and from the last position back to the first.
pub proof fn lemma_next_position(w: Wave)
    requires
        w.valid(),
    ensures
        w.next().valid(),
        w.next().duty_steps == w.duty_steps,
        w.next().cycles_per_step == w.cycles_per_step,
        w.next().position() == (w.position() + 1) % w.span(),
{
    lemma_position_in_span(w);
    let s = w.duty_steps as int;
    let c = w.cycles_per_step as int;
    let r = w.rung() as int;
    let m = w.span() as int;
    let p = w.position() as int;
    if p + 1 < m {
        lemma_small_mod((p + 1) as nat, m as nat);
        if w.step_due() {
            assert((r + 1) * c == r * c + c) by (nonlinear_arith);
            if r + 1 >= 2 * s {
                assert((r + 1) * c >= (2 * s) * c) by (nonlinear_arith)
                    requires
                        r + 1 >= 2 * s,
                        c >= 1,
                ;
            }
            assert(w.next().rung() == r + 1);
        }
    } else {
        lemma_mod_self_0(m);
        assert(r * c + c <= (2 * s) * c) by (nonlinear_arith)
            requires
                0 <= r < 2 * s,
                c >= 1,
        ;
        assert(w.step_due());
        assert((r + 1) * c == r * c + c) by (nonlinear_arith);
        if r + 1 < 2 * s {
            assert((r + 1) * c + c <= (2 * s) * c) by (nonlinear_arith)
                requires
                    r + 1 < 2 * s,
                    c >= 1,
            ;
        }
        assert(r + 1 == 2 * s);
        assert(w.next().rung() == 0);
        assert(0 * c == 0) by (nonlinear_arith);
    }
}

/// Any number of period boundaries moves a valid envelope that many positions
/// on, round its breath.
pub proof fn lemma_after_position(w: Wave, n: nat)
    requires
        w.valid(),
    ensures
        w.after(n).valid(),
        w.after(n).duty_steps == w.duty_steps,
        w.after(n).cycles_per_step == w.cycles_per_step,
        w.after(n).position() == (w.position() + n) % w.span(),
    decreases n,
{
    lemma_position_in_span(w);
    let m = w.span() as int;
    let p = w.position() as int;
    if n == 0 {
        lemma_small_mod(p as nat, m as nat);
    } else {
        let before = w.after((n - 1) as nat);
        lemma_after_position(w, (n - 1) as nat);
        lemma_next_position(before);
        assert(before.span() == w.span());
        lemma_add_mod_noop(p + n - 1, 1, m);
        lemma_small_mod(1, m as nat);
    }
}

/// Where the envelope stands after `n` period boundaries, in closed form: at
/// the position `n` further on, counted round the breath.
pub proof fn lemma_after_is_at(w: Wave, n: nat)
    requires
        w.valid(),
    ensures
        w.after(n) == Wave::at(
            w.duty_steps,
            w.cycles_per_step,
            (w.position() + n) % w.span(),
        ),
{
    lemma_after_position(w, n);
    lemma_at_of_position(w.after(n));
}

/// The breath repeats: one whole breath of period boundaries later, a valid
/// envelope is what it was.
pub proof fn lemma_breath_is_periodic(w: Wave, n: nat)
    requires
        w.valid(),
    ensures
        w.after(n + w.span()) == w.after(n),
        w.after(w.span()) == w,
{
    lemma_position_in_span(w);
    let m = w.span() as int;
    lemma_after_is_at(w, n);
    lemma_after_is_at(w, n + w.span());
    lemma_mod_add_multiples_vanish((w.position() + n) as int, m);
    lemma_after_is_at(w, 0);
    lemma_after_is_at(w, w.span());
    lemma_mod_add_multiples_vanish(w.position() as int, m);
    assert(w.after(0) == w);
}

/// From rest, the peak comes after exactly `duty_steps * cycles_per_step`
/// period boundaries, and the trough after as many again.
pub proof fn lemma_peak_and_trough(duty_steps: nat, cycles_per_step: nat)
    requires
        duty_steps >= 1,
        cycles_per_step >= 1,
    ensures
        Wave::start(duty_steps, cycles_per_step).after(duty_steps * cycles_per_step) == (Wave {
            duty_steps,
            cycles_per_step,
            duty: duty_steps,
            rising: false,
            cycle_count: 0,
        }),
        Wave::start(duty_steps, cycles_per_step).after(2 * (duty_steps * cycles_per_step))
            == Wave::start(duty_steps, cycles_per_step),
{
    let w = Wave::start(duty_steps, cycles_per_step);
    let s = duty_steps as int;
    let c = cycles_per_step as int;
    let half = duty_steps * cycles_per_step;
    let m = w.span() as int;
    assert(w.valid());
    assert(w.position() == 0) by (nonlinear_arith)
        requires
            w.position() == 0 * c + 0,
    ;
    assert(m == 2 * (s * c) && 0 <= s * c < m) by (nonlinear_arith)
        requires
            m == (2 * s) * c,
            s >= 1,
            c >= 1,
    ;
    lemma_after_is_at(w, half);
    lemma_small_mod(half, m as nat);
    lemma_fundamental_div_mod_converse(s * c, c, s, 0);
    lemma_breath_is_periodic(w, 0);
}

} // verus!
