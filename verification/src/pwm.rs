//! Fixed-point PWM: how many ticks of a period the output is high for a given
//! duty, and the level the output should have at a point inside the period.

use vstd::prelude::*;

verus! {

/// Ticks of a period of `period` ticks during which the output is high at
/// `duty` out of `steps`: the floor of `period * duty / steps`.
pub open spec fn on_ticks_of(period: nat, duty: nat, steps: nat) -> nat {
    (period * duty) / steps
}

/// The level the output should have `elapsed` ticks into a period whose high
/// part lasts `on_ticks` ticks.
pub open spec fn level_at(elapsed: nat, on_ticks: nat) -> bool {
    elapsed < on_ticks
}

/// The high part of a period never exceeds the period.
pub proof fn lemma_on_ticks_bounded(period: nat, duty: nat, steps: nat)
    requires
        steps > 0,
        duty <= steps,
    ensures
        0 <= on_ticks_of(period, duty, steps) <= period,
                on_ticks_of(period, 0, steps) == 0,
        on_ticks_of(period, steps, steps) == period,
{
    let p = period as int;
    let d = duty as int;
    let s = steps as int;
    assert(0 <= p * d <= p * s) by (nonlinear_arith)
        requires
            0 <= p,
            0 <= d <= s,
    ;
    assert(0 <= (p * d) / s <= p) by (nonlinear_arith)
        requires
            0 <= p * d <= p * s,
            s > 0,
    ;
    assert((p * 0) / s == 0) by (nonlinear_arith)
        requires
            s > 0,
    ;
    assert((p * s) / s == p) by (nonlinear_arith)
        requires
            s > 0,
    ;
}

/// Number of places in a run of levels at which the level differs from the
/// one before it.
pub open spec fn changes(levels: Seq<bool>) -> nat
    decreases levels.len(),
{
    if levels.len() < 2 {
        0
    } else {
        let last_differs: nat = if levels[levels.len() - 2] != levels.last() {
            1
        } else {
            0
        };
        changes(levels.drop_last()) + last_differs
    }
}

/// The levels wanted at a run of instants of one period.
pub open spec fn levels_at(elapsed: Seq<nat>, on_ticks: nat) -> Seq<bool> {
    Seq::new(elapsed.len(), |i: int| level_at(elapsed[i], on_ticks))
}

/// Each instant of the run is later than the one before it.
pub open spec fn strictly_increasing(elapsed: Seq<nat>) -> bool {
    forall|i: int, j: int| 0 <= i < j < elapsed.len() ==> elapsed[i] < elapsed[j]
}

/// Within a period the wanted level only ever falls, and at most once: at
/// instants that follow one another under a fixed `on_ticks`, no instant wants
/// the output high after an earlier one wanted it low, and the level changes
/// at most one time.
pub proof fn lemma_level_falls_at_most_once(elapsed: Seq<nat>, on_ticks: nat)
    requires
        strictly_increasing(elapsed),
    ensures
        forall|i: int, j: int|
            0 <= i <= j < elapsed.len() && level_at(elapsed[j], on_ticks) ==> level_at(
                elapsed[i],
                on_ticks,
            ),
        changes(levels_at(elapsed, on_ticks)) <= 1,
        elapsed.len() > 0 && level_at(elapsed.last(), on_ticks) ==> changes(
            levels_at(elapsed, on_ticks),
        ) == 0,
    decreases elapsed.len(),
{
    let levels = levels_at(elapsed, on_ticks);
    if elapsed.len() >= 2 {
        let front = elapsed.drop_last();
        lemma_level_falls_at_most_once(front, on_ticks);
        assert(levels.drop_last() =~= levels_at(front, on_ticks));
        assert(front.last() == elapsed[elapsed.len() - 2]);
        assert(elapsed[elapsed.len() - 2] < elapsed.last());
    }
}

/// Putting a level in front of a run adds at most one change to it.
pub proof fn lemma_changes_with_first(first: bool, levels: Seq<bool>)
    ensures
        changes(seq![first] + levels) <= changes(levels) + 1,
        levels.len() > 0 && levels[0] == first ==> changes(seq![first] + levels) == changes(
            levels,
        ),
    decreases levels.len(),
{
    let all = seq![first] + levels;
    if levels.len() >= 1 {
        let front = levels.drop_last();
        lemma_changes_with_first(first, front);
        assert(all.drop_last() =~= seq![first] + front);
        assert(all.last() == levels.last());
        if levels.len() >= 2 {
            assert(all[all.len() - 2] == levels[levels.len() - 2]);
        } else {
            assert(all[all.len() - 2] == first);
            assert(changes(seq![first] + front) == 0);
        }
    }
}

/// Computes the high part of a period. The product is formed in 128 bits, so
/// every period and every resolution is served without overflow.
pub fn on_ticks(period: u64, duty: u64, steps: u64) -> (ticks: u64)
    requires
        steps > 0,
        duty <= steps,
    ensures
        ticks == on_ticks_of(period as nat, duty as nat, steps as nat),
        ticks <= period,
{
    proof {
        lemma_on_ticks_bounded(period as nat, duty as nat, steps as nat);
        assert(period * duty <= u64::MAX * u64::MAX) by (nonlinear_arith)
            requires
                0 <= period <= u64::MAX,
                0 <= duty <= u64::MAX,
        ;
    }
    let wide: u128 = (period as u128) * (duty as u128);
    let ticks: u128 = wide / (steps as u128);
    ticks as u64
}

/// Decides the output level `elapsed` ticks into a period.
pub fn desired_level(elapsed: u64, on_ticks: u64) -> (on: bool)
    ensures
        on == level_at(elapsed as nat, on_ticks as nat),
{
    elapsed < on_ticks
}

} // verus!
