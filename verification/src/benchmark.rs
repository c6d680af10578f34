//! UI event throughput of the benchmark snapshots.

use vstd::prelude::*;
use crate::performance::EventCounter;

verus! {

/// Counts one event published to the UI.
pub fn record_ui_event_published(counter: &mut EventCounter)
    ensures
        final(counter)@ == (if old(counter)@ == u64::MAX {
            0
        } else {
            old(counter)@ + 1
        }),
{
    crate::performance::record_event_published(counter);
}

/// UI event throughput of a snapshot: the events the event bus published since
/// the last drain plus those counted here, which are reset.
pub fn drain_ui_event_throughput(bus_published: u64, counter: &mut EventCounter) -> (r: u128)
    ensures
        r == bus_published + old(counter)@,
        final(counter)@ == 0,
{
    let c = counter.drain();
    bus_published as u128 + c as u128
}

} // verus!
