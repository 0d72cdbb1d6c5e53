//! The LED output: one memory-mapped register, written whole.

use vstd::prelude::*;

verus! {

/// The register word that stands for a level: 1 asserts the output, 0
/// deasserts it.
pub open spec fn word_of(level: bool) -> u32 {
    if level {
        1
    } else {
        0
    }
}

/// The word to write to the output register for `level`. The whole register is
/// written, so no other bit of it survives.
pub fn level_word(level: bool) -> (word: u32)
    ensures
        word == word_of(level),
{
    if level {
        1
    } else {
        0
    }
}

} // verus!
