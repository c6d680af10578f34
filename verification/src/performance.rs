//! Event throughput counting of the performance monitor.

use vstd::prelude::*;

verus! {

/// A counter of published events, drained by each snapshot. It wraps around
/// on overflow, as an atomic `fetch_add` does.
pub struct EventCounter {
    count: u64,
}

impl View for EventCounter {
    type V = u64;

    closed spec fn view(&self) -> u64 {
        self.count
    }
}

impl EventCounter {
    pub fn new() -> (r: EventCounter)
        ensures
            r@ == 0,
    {
        EventCounter { count: 0 }
    }

    /// Reads the count and resets it to zero.
    pub fn drain(&mut self) -> (r: u64)
        ensures
            r == old(self)@,
            final(self)@ == 0,
    {
        let c = self.count;
        self.count = 0;
        c
    }
}

/// Counts one published event.
pub fn record_event_published(counter: &mut EventCounter)
    ensures
        final(counter)@ == (if old(counter)@ == u64::MAX {
            0
        } else {
            old(counter)@ + 1
        }),
{
    counter.count = if counter.count == u64::MAX {
        0
    } else {
        counter.count + 1
    };
}

/// Seconds between two snapshots: at least 10.
pub fn snapshot_interval_secs(interval_secs: u64) -> (r: u64)
    ensures
        r == (if interval_secs < 10 {
            10
        } else {
            interval_secs
        }),
{
    if interval_secs < 10 {
        10
    } else {
        interval_secs
    }
}

} // verus!
