//! Kernel time arithmetic.
//!
//! The hardware counter itself is read outside this crate; these
//! functions turn a counter reading and the recorded boot times into
//! the clock values the kernel reports.

use vstd::prelude::*;

verus! {

/// Nanoseconds.
pub type NanoSecond = u128;

/// Time since boot: the kernel's offset plus the counter reading.
pub fn monotonic(offset: NanoSecond, counter: NanoSecond) -> (r: NanoSecond)
    requires
        offset + counter <= u128::MAX,
    ensures
        r == offset + counter,
{
    offset + counter
}

/// Wall-clock time: the recorded start time plus time since boot.
pub fn realtime(start: NanoSecond, offset: NanoSecond, counter: NanoSecond) -> (r: NanoSecond)
    requires
        start + offset + counter <= u128::MAX,
    ensures
        r == start + offset + counter,
{
    start + monotonic(offset, counter)
}

} // verus!
