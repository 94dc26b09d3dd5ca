use vstd::prelude::*;

use crate::chain::Event;

verus! {

/// The interval, in seconds, at which the timer restarts the chain.
pub const CHAIN_PERIOD_SECS: u64 = 20;

/// A periodic source of `copy-event`, independent of the hotkeys.
///
/// The caller reports the time, in seconds since the timer started; the
/// timer fires at most once per report, at or after each due time, and is
/// then due again one period after that report.
#[derive(Clone, Copy, Debug, PartialEq, Eq, Structural)]
pub struct Ticker {
    pub period_secs: u64,
    pub next_due_secs: u64,
}

impl Ticker {
    pub open spec fn wf(self) -> bool {
        self.period_secs > 0
    }

    /// A timer with the given period, first due one period after the start.
    pub fn new(period_secs: u64) -> (r: Ticker)
        requires
            period_secs > 0,
        ensures
            r.wf(),
            r.period_secs == period_secs,
            r.next_due_secs == period_secs,
    {
        Ticker { period_secs, next_due_secs: period_secs }
    }

    /// The timer of the chain, with its fixed period.
    pub fn chain_timer() -> (r: Ticker)
        ensures
            r.wf(),
            r.period_secs == CHAIN_PERIOD_SECS,
            r.next_due_secs == CHAIN_PERIOD_SECS,
    {
        Ticker::new(CHAIN_PERIOD_SECS)
    }

    /// Reports the time `now_secs`; returns the event to publish, if the timer
    /// fires. The next due time saturates at the largest `u64`.
    pub fn poll(&mut self, now_secs: u64) -> (r: Option<Event>)
        requires
            old(self).wf(),
        ensures
            final(self).wf(),
            final(self).period_secs == old(self).period_secs,
            now_secs >= old(self).next_due_secs ==> r == Some(Event::Copy)
                && final(self).next_due_secs == if now_secs + old(self).period_secs
                <= u64::MAX {
                (now_secs + old(self).period_secs) as u64
            } else {
                u64::MAX
            },
            now_secs < old(self).next_due_secs ==> r.is_none() && *final(self) == *old(self),
    {
        if now_secs < self.next_due_secs {
            return None;
        }
        self.next_due_secs = now_secs.saturating_add(self.period_secs);
        Some(Event::Copy)
    }
}

} // verus!
