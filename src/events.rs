//! The counts kept by a demo that emits an event each time a timer finishes
//! and receives events on a slower schedule, so that some are lost.

use vstd::prelude::*;

verus! {

/// How many events have been emitted and how many received.
pub struct DiagnosticState {
    pub events_emitted: usize,
    pub events_received: usize,
}

impl Default for DiagnosticState {
    /// Nothing emitted, nothing received.
    fn default() -> (r: Self)
        ensures
            r.events_emitted == 0,
            r.events_received == 0,
    {
        DiagnosticState { events_emitted: 0, events_received: 0 }
    }
}

impl DiagnosticState {
    /// Decides what a tick of the emitting timer does: when the timer has
    /// finished an event is emitted, and its running number is returned.
    pub fn on_timer(&mut self, finished: bool) -> (r: Option<usize>)
        requires
            finished ==> old(self).events_emitted < usize::MAX,
        ensures
            final(self).events_received == old(self).events_received,
            finished ==> final(self).events_emitted == old(self).events_emitted + 1
                && r == Some(final(self).events_emitted),
            !finished ==> final(self).events_emitted == old(self).events_emitted && r is None,
    {
        if finished {
            self.events_emitted = self.events_emitted + 1;
            Some(self.events_emitted)
        } else {
            None
        }
    }

    /// Counts one received event and returns how many have been received.
    pub fn on_event(&mut self) -> (r: usize)
        requires
            old(self).events_received < usize::MAX,
        ensures
            final(self).events_emitted == old(self).events_emitted,
            final(self).events_received == old(self).events_received + 1,
            r == final(self).events_received,
    {
        self.events_received = self.events_received + 1;
        self.events_received
    }
}

} // verus!
