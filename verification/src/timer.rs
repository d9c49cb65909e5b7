//! The elapsed-time state machine: a solve timer that is either stopped,
//! holding its settled duration, or running since some instant. The current
//! wall-clock reading is always passed in explicitly as a millisecond value,
//! so every transition is a total function of its inputs; elapsed time is
//! computed lazily on read and never mutated by reads.

use vstd::prelude::*;

verus! {

/// A start/stop/reset timer. `accumulated_ms` is the total settled time in
/// milliseconds; while running, the true elapsed time is the accumulated
/// time plus the interval since `started_at_ms`, recomputed on read.
#[derive(Clone, Copy, PartialEq, Eq, Structural, Debug)]
pub struct Timer {
    pub accumulated_ms: u64,
    pub started_at_ms: Option<u64>,
}

/// The length of the interval from `start` to `now`; an earlier `now`
/// (a wall clock stepped backwards) contributes nothing.
pub open spec fn run_interval_ms(start: u64, now: u64) -> int {
    if now >= start {
        now - start
    } else {
        0
    }
}

/// A non-negative count capped to what a `u64` can hold.
pub open spec fn cap_u64(v: int) -> u64
    recommends
        v >= 0,
{
    if v > u64::MAX {
        u64::MAX
    } else {
        v as u64
    }
}

impl Timer {
    /// Whether the timer is currently running.
    pub open spec fn is_running(self) -> bool {
        self.started_at_ms is Some
    }

    /// The elapsed milliseconds read at `now_ms`: the settled time, plus the
    /// open interval while running.
    pub open spec fn spec_elapsed(self, now_ms: u64) -> u64 {
        match self.started_at_ms {
            Some(start) => cap_u64(self.accumulated_ms + run_interval_ms(start, now_ms)),
            None => self.accumulated_ms,
        }
    }

    /// The state after `start` at `now_ms`: from stopped, begin a fresh run
    /// with zero accumulation; starting while already running is a no-op.
    pub open spec fn spec_start(self, now_ms: u64) -> Timer {
        if self.is_running() {
            self
        } else {
            Timer { accumulated_ms: 0, started_at_ms: Some(now_ms) }
        }
    }

    /// The state after `stop` at `now_ms`: from running, settle the open
    /// interval into the accumulated time; stopping while stopped is a no-op.
    pub open spec fn spec_stop(self, now_ms: u64) -> Timer {
        if self.is_running() {
            Timer { accumulated_ms: self.spec_elapsed(now_ms), started_at_ms: None }
        } else {
            self
        }
    }

    /// The state after `reset`: from stopped, clear the accumulated time;
    /// resetting while running is a no-op, so an in-progress measurement is
    /// never lost.
    pub open spec fn spec_reset(self) -> Timer {
        if self.is_running() {
            self
        } else {
            Timer { accumulated_ms: 0, started_at_ms: None }
        }
    }

    /// A fresh timer: stopped, with nothing accumulated.
    pub fn new() -> (t: Timer)
        ensures
            t.accumulated_ms == 0,
            !t.is_running(),
    {
        Timer { accumulated_ms: 0, started_at_ms: None }
    }

    /// Whether the timer is stopped.
    pub fn is_stopped(&self) -> (r: bool)
        ensures
            r == !self.is_running(),
    {
        self.started_at_ms.is_none()
    }

    /// Starts a fresh run at `now_ms`; a no-op while already running.
    pub fn start(&mut self, now_ms: u64)
        ensures
            *final(self) == old(self).spec_start(now_ms),
    {
        if self.started_at_ms.is_none() {
            self.accumulated_ms = 0;
            self.started_at_ms = Some(now_ms);
        }
    }

    /// Stops the run at `now_ms`, settling the open interval into the
    /// accumulated time; a no-op while already stopped.
    pub fn stop(&mut self, now_ms: u64)
        ensures
            *final(self) == old(self).spec_stop(now_ms),
    {
        if let Some(start) = self.started_at_ms {
            let interval: u64 = if now_ms >= start {
                now_ms - start
            } else {
                0
            };
            let settled: u64 = if interval > u64::MAX - self.accumulated_ms {
                u64::MAX
            } else {
                self.accumulated_ms + interval
            };
            self.accumulated_ms = settled;
            self.started_at_ms = None;
        }
    }

    /// Clears the accumulated time while stopped; a no-op while running.
    pub fn reset(&mut self)
        ensures
            *final(self) == old(self).spec_reset(),
    {
        if self.started_at_ms.is_none() {
            self.accumulated_ms = 0;
        }
    }

    /// The elapsed milliseconds read at `now_ms`, without mutating the state.
    pub fn get_elapsed(&self, now_ms: u64) -> (ms: u64)
        ensures
            ms == self.spec_elapsed(now_ms),
    {
        if let Some(start) = self.started_at_ms {
            let interval: u64 = if now_ms >= start {
                now_ms - start
            } else {
                0
            };
            if interval > u64::MAX - self.accumulated_ms {
                u64::MAX
            } else {
                self.accumulated_ms + interval
            }
        } else {
            self.accumulated_ms
        }
    }
}

/// Timer monotonicity: for a run started at `start_ms` from a stopped timer,
/// the elapsed reading never decreases as the clock advances; stopping at
/// `n2` settles exactly the reading at `n2`, which every later read returns
/// unchanged; resetting after the stop yields zero elapsed; and a reset
/// attempted while the run is in progress changes nothing.
pub proof fn lemma_timer_monotonic(t: Timer, start_ms: u64, n1: u64, n2: u64)
    requires
        !t.is_running(),
        n1 <= n2,
    ensures
        t.spec_start(start_ms).spec_elapsed(n1) <= t.spec_start(start_ms).spec_elapsed(n2),
        forall|m: u64| #[trigger] t.spec_start(start_ms).spec_stop(n2).spec_elapsed(m)
            == t.spec_start(start_ms).spec_elapsed(n2),
        forall|m: u64| #[trigger] t.spec_start(start_ms).spec_stop(n2).spec_reset().spec_elapsed(m)
            == 0,
        t.spec_start(start_ms).spec_reset() == t.spec_start(start_ms),
{
}

/// Relies on `chrono::Local::now` and `DateTime::timestamp_millis`: the
/// current wall-clock time as milliseconds since the Unix epoch, the signed
/// count reinterpreted as a `u64`. Nothing is promised of the value: the
/// clock is the machine's, and callers state what holds of every reading.
#[verifier::external_body]
pub(crate) fn now_millis() -> (ms: u64) {
    chrono::Local::now().timestamp_millis() as u64
}

} // verus!
