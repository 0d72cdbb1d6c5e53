//! The diagnostic channel: a polled transmitter that takes one byte once the
//! line status register reports the transmit holding register empty.

use vstd::prelude::*;

verus! {

/// Bit 5 of the line status register: transmit holding register empty.
pub const LSR_THRE: u32 = 0x20;

/// The status word reports that the transmitter can take a byte.
pub open spec fn ready(status: u32) -> bool {
    status & LSR_THRE != 0
}

/// Tells from the line status word whether the next byte may be written; the
/// sender spins until it may.
pub fn transmit_ready(status: u32) -> (go: bool)
    ensures
        go == ready(status),
{
    status & LSR_THRE != 0
}

} // verus!
