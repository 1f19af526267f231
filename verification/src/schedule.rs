//! When the event loop ticks: how long it may wait for a key, and whether a
//! tick is due. Times are in milliseconds.

use vstd::prelude::*;

verus! {

/// The time that is left of a tick of `tick_rate` after `elapsed`: nothing
/// once the tick is over.
pub open spec fn remaining(tick_rate: u64, elapsed: u64) -> u64 {
    if elapsed >= tick_rate {
        0
    } else {
        (tick_rate - elapsed) as u64
    }
}

/// How long the loop may wait for a key before the next tick is due.
pub fn poll_timeout(tick_rate: u64, elapsed: u64) -> (timeout: u64)
    ensures
        timeout == remaining(tick_rate, elapsed),
{
    if elapsed >= tick_rate {
        0
    } else {
        tick_rate - elapsed
    }
}

/// Whether a tick is due `elapsed` after the last one.
pub fn tick_due(tick_rate: u64, elapsed: u64) -> (due: bool)
    ensures
        due == (elapsed >= tick_rate),
        due == (remaining(tick_rate, elapsed) == 0),
{
    elapsed >= tick_rate
}

} // verus!
