//! Reading a free-running 64-bit counter that the hardware exposes as two
//! 32-bit registers. The halves cannot be read together, so a read takes the
//! high half, the low half and the high half again, and stands only when both
//! high halves agree; otherwise a carry went through and the read is retried.

use vstd::prelude::*;

verus! {

/// The upper 32 bits of a counter value.
pub open spec fn high_half(value: u64) -> u32 {
    (value / 0x1_0000_0000) as u32
}

/// The lower 32 bits of a counter value.
pub open spec fn low_half(value: u64) -> u32 {
    (value % 0x1_0000_0000) as u32
}

/// The counter value whose halves are `high` and `low`.
pub open spec fn joined(high: u32, low: u32) -> u64 {
    (high * 0x1_0000_0000 + low) as u64
}

/// What one attempt yields: the joined value where both high halves agree,
/// nothing where they differ.
pub open spec fn settled(first_high: u32, low: u32, second_high: u32) -> Option<u64> {
    if first_high == second_high {
        Some(joined(first_high, low))
    } else {
        None
    }
}

/// The three register values that one attempt observed, in reading order.
#[derive(Clone, Copy, Debug, PartialEq, Eq)]
pub struct Attempt {
    pub first_high: u32,
    pub low: u32,
    pub second_high: u32,
}

impl Attempt {
    /// Both high halves agree, so no carry passed while the low half was read.
    pub open spec fn consistent(self) -> bool {
        self.first_high == self.second_high
    }

    /// The value this attempt stands for when it is consistent.
    pub open spec fn value(self) -> u64 {
        joined(self.first_high, self.low)
    }
}

/// Joins two register halves into the 64-bit counter value.
pub fn join(high: u32, low: u32) -> (value: u64)
    ensures
        value == joined(high, low),
        value == high * 0x1_0000_0000 + low,
        high_half(value) == high,
        low_half(value) == low,
{
    let value: u64 = ((high as u64) << 32) | (low as u64);
    assert(value == high * 0x1_0000_0000 + low) by (bit_vector)
        requires
            value == ((high as u64) << 32) | (low as u64),
    ;
    assert(value / 0x1_0000_0000 == high && value % 0x1_0000_0000 == low) by (bit_vector)
        requires
            value == ((high as u64) << 32) | (low as u64),
    ;
    value
}

/// Judges one attempt: the counter value if the two high halves agree, `None`
/// if a carry passed between them and the attempt has to be repeated.
pub fn settle(first_high: u32, low: u32, second_high: u32) -> (value: Option<u64>)
    ensures
        value == settled(first_high, low, second_high),
{
    if first_high == second_high {
        Some(join(first_high, low))
    } else {
        None
    }
}

/// Runs the reader over recorded attempts, as the hardware loop would meet
/// them: gives the position and the value of the first consistent attempt, and
/// `None` when every recorded attempt was torn.
pub fn first_settled(attempts: &[Attempt]) -> (found: Option<(usize, u64)>)
    ensures
        match found {
            Some((at, value)) => {
                &&& at < attempts@.len()
                &&& attempts@[at as int].consistent()
                &&& value == attempts@[at as int].value()
                &&& forall|j: int| 0 <= j < at ==> !(#[trigger] attempts@[j]).consistent()
            },
            None => forall|j: int|
                0 <= j < attempts@.len() ==> !(#[trigger] attempts@[j]).consistent(),
        },
{
    let mut at: usize = 0;
    while at < attempts.len()
        invariant
            at <= attempts@.len(),
            forall|j: int| 0 <= j < at ==> !(#[trigger] attempts@[j]).consistent(),
        decreases attempts@.len() - at,
    {
        let attempt = attempts[at];
        match settle(attempt.first_high, attempt.low, attempt.second_high) {
            Some(value) => {
                return Some((at, value));
            },
            None => {},
        }
        at += 1;
    }
    None
}

/// A counter value splits into its two halves and joins back to itself.
pub proof fn lemma_join_of_halves(value: u64)
    ensures
        joined(high_half(value), low_half(value)) == value,
{
}

/// A read that stands is never torn. Let the counter show `before` when the
/// high half is first read, `between` when the low half is read and `after`
/// when the high half is read again, without running backwards meanwhile. If
/// the two high halves agree, the joined value is exactly what the counter
/// showed when the low half was read.
pub proof fn lemma_settled_read_is_whole(before: u64, between: u64, after: u64)
    requires
        before <= between <= after,
        high_half(before) == high_half(after),
    ensures
        settled(high_half(before), low_half(between), high_half(after)) == Some(between),
{
    assert(high_half(between) == high_half(before)) by {
        assert(before / 0x1_0000_0000 <= between / 0x1_0000_0000 <= after / 0x1_0000_0000);
    }
}

/// A carry that passes before the low half is read is always noticed: with a
/// counter that does not run backwards, a low half taken from a later high
/// half than the first one read makes the attempt fail, so the stale pair is
/// never returned.
pub proof fn lemma_carry_forces_retry(before: u64, between: u64, after: u64)
    requires
        before <= between <= after,
        high_half(before) != high_half(between),
    ensures
        settled(high_half(before), low_half(between), high_half(after)).is_none(),
{
    assert(before / 0x1_0000_0000 <= between / 0x1_0000_0000 <= after / 0x1_0000_0000);
}

/// Two reads in a row never run backwards. The six instants are those of the
/// register reads of two attempts that both stand, on a counter that does not
/// wrap between the first and the last of them.
pub proof fn lemma_reads_do_not_decrease(t0: u64, t1: u64, t2: u64, t3: u64, t4: u64, t5: u64)
    requires
        t0 <= t1 <= t2 <= t3 <= t4 <= t5,
        high_half(t0) == high_half(t2),
        high_half(t3) == high_half(t5),
    ensures
        settled(high_half(t0), low_half(t1), high_half(t2)) == Some(t1),
        settled(high_half(t3), low_half(t4), high_half(t5)) == Some(t4),
        t1 <= t4,
{
    lemma_settled_read_is_whole(t0, t1, t2);
    lemma_settled_read_is_whole(t3, t4, t5);
}

} // verus!
