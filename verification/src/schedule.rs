//! Drift-free periodic deadlines.
//!
//! Each deadline is the previous deadline plus the fixed period — never the
//! time the tick actually ran plus the period — so jitter in when a tick
//! executes can never accumulate into the cadence.

use vstd::prelude::*;

verus! {

/// The deadline track of one periodic task. Timestamps are ticks of a
/// monotonic clock.
#[derive(Clone, Copy, Debug, PartialEq, Eq, Structural)]
pub struct Schedule {
    /// The first deadline, at which the task runs for the first time.
    pub start: u64,
    /// The fixed period between deadlines.
    pub period: u64,
    /// How many times the task has been rescheduled.
    pub ticks: u64,
    /// The absolute instant the task must next run at.
    pub deadline: u64,
}

impl Schedule {
    /// The deadline is exactly `start + ticks * period`: no drift, however
    /// late within its period each tick actually ran.
    pub open spec fn wf(self) -> bool {
        self.deadline == self.start + self.ticks * self.period
    }

    /// A fresh schedule whose first deadline is `start`.
    pub fn new(start: u64, period: u64) -> (s: Schedule)
        ensures
            s == (Schedule { start, period, ticks: 0, deadline: start }),
            s.wf(),
    {
        Schedule { start, period, ticks: 0, deadline: start }
    }

    /// Whether one more period still fits the clock's range.
    pub fn can_advance(&self) -> (ok: bool)
        ensures
            ok == (self.deadline + self.period <= u64::MAX && self.ticks < u64::MAX),
    {
        self.deadline <= u64::MAX - self.period && self.ticks < u64::MAX
    }

    /// Move to the next deadline: the current deadline plus the period,
    /// independent of when the current tick actually executed.
    pub fn advance(&mut self)
        requires
            old(self).wf(),
            old(self).deadline + old(self).period <= u64::MAX,
            old(self).ticks < u64::MAX,
        ensures
            final(self).start == old(self).start,
            final(self).period == old(self).period,
            final(self).ticks == old(self).ticks + 1,
            final(self).deadline == old(self).deadline + old(self).period,
            final(self).wf(),
    {
        self.deadline = self.deadline + self.period;
        self.ticks = self.ticks + 1;
        proof {
            let t = old(self).ticks as int;
            let p = old(self).period as int;
            assert(t * p + p == (t + 1) * p) by (nonlinear_arith);
        }
    }

    /// Drift bound: after any number of ticks the deadline of a well-formed
    /// schedule is exactly the start plus that many whole periods.
    pub proof fn lemma_no_drift(self)
        requires
            self.wf(),
        ensures
            self.deadline == self.start + self.ticks * self.period,
    {
    }
}

} // verus!
