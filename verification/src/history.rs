//! The session history: an append-only log of completed solves, each with
//! the scramble that preceded it, plus a navigable stack of previously
//! shown but unsolved scrambles behind the always-defined current scramble.

use vstd::prelude::*;
use crate::scramble::{get_scramble, MoveToken, ScrambleSequence};
use crate::stats::{ao5_ms, last_five, seq_max, seq_min, seq_sum, lemma_sum_bounds, trimmed_mean, AO5_WINDOW};

verus! {

/// One completed solve: the scramble that was shown and the measured
/// duration in milliseconds. Immutable after creation.
pub struct SolveRecord {
    pub scramble: ScrambleSequence,
    pub duration_ms: u64,
}

/// The session history. `current_scramble` is always defined and is the
/// scramble the next completed solve will be attached to.
pub struct SessionHistory {
    pub completed: Vec<SolveRecord>,
    pub pending_scrambles: Vec<ScrambleSequence>,
    pub current_scramble: ScrambleSequence,
}

impl SessionHistory {
    /// The completed solves as (scramble tokens, duration) pairs, oldest
    /// first.
    pub open spec fn completed_views(self) -> Seq<(Seq<MoveToken>, u64)> {
        self.completed@.map_values(|r: SolveRecord| (r.scramble@, r.duration_ms))
    }

    /// The completed durations in milliseconds, oldest first.
    pub open spec fn durations(self) -> Seq<u64> {
        self.completed@.map_values(|r: SolveRecord| r.duration_ms)
    }

    /// The pending scrambles as token sequences, oldest first.
    pub open spec fn pending_views(self) -> Seq<Seq<MoveToken>> {
        self.pending_scrambles@.map_values(|s: ScrambleSequence| s@)
    }

    /// The current scramble's tokens.
    pub open spec fn current(self) -> Seq<MoveToken> {
        self.current_scramble@
    }

    /// A fresh session: no solves, no pending scrambles, and one generated
    /// current scramble.
    pub fn new() -> (h: SessionHistory)
        ensures
            h.completed_views() == Seq::<(Seq<MoveToken>, u64)>::empty(),
            h.durations() == Seq::<u64>::empty(),
            h.pending_views() == Seq::<Seq<MoveToken>>::empty(),
            h.current_scramble.wf(),
    {
        let h = SessionHistory {
            completed: Vec::new(),
            pending_scrambles: Vec::new(),
            current_scramble: get_scramble(),
        };
        proof {
            assert(h.completed_views() =~= Seq::<(Seq<MoveToken>, u64)>::empty());
            assert(h.durations() =~= Seq::<u64>::empty());
            assert(h.pending_views() =~= Seq::<Seq<MoveToken>>::empty());
        }
        h
    }

    /// Skips ahead: the current scramble is pushed onto the pending stack
    /// and replaced with a freshly generated one. Completed solves are
    /// untouched.
    pub fn next_scramble(&mut self)
        ensures
            final(self).completed_views() == old(self).completed_views(),
            final(self).durations() == old(self).durations(),
            final(self).pending_views() == old(self).pending_views().push(old(self).current()),
            final(self).current_scramble.wf(),
    {
        let shown = self.current_scramble.duplicate();
        self.pending_scrambles.push(shown);
        self.current_scramble = get_scramble();
        proof {
            assert(self.completed_views() =~= old(self).completed_views());
            assert(self.durations() =~= old(self).durations());
            assert(self.pending_views()
                =~= old(self).pending_views().push(old(self).current()));
        }
    }

    /// Navigates back: if any scramble is pending, the most recent one
    /// becomes current again (the displaced current scramble is discarded);
    /// with nothing pending this is a no-op. Completed solves are untouched.
    pub fn previous_scramble(&mut self)
        ensures
            final(self).completed_views() == old(self).completed_views(),
            old(self).pending_views().len() > 0 ==> {
                &&& final(self).current() == old(self).pending_views().last()
                &&& final(self).pending_views() == old(self).pending_views().drop_last()
            },
            old(self).pending_views().len() == 0 ==> {
                &&& final(self).current() == old(self).current()
                &&& final(self).pending_views() == old(self).pending_views()
            },
    {
        if let Some(prev) = self.pending_scrambles.pop() {
            self.current_scramble = prev;
            proof {
                assert(self.completed_views() =~= old(self).completed_views());
                assert(self.pending_views()
                    =~= old(self).pending_views().drop_last());
            }
        } else {
            proof {
                assert(self.pending_views() =~= old(self).pending_views());
            }
        }
    }

    /// Records a completed solve: appends a record carrying the current
    /// scramble and the given duration (the log only ever grows, by exactly
    /// this one record), then advances to a freshly generated scramble,
    /// keeping the just-solved one reachable through back-navigation.
    pub fn record_solve(&mut self, duration_ms: u64)
        ensures
            final(self).completed_views()
                == old(self).completed_views().push((old(self).current(), duration_ms)),
            final(self).durations() == old(self).durations().push(duration_ms),
            final(self).pending_views() == old(self).pending_views().push(old(self).current()),
            final(self).current_scramble.wf(),
    {
        let scramble = self.current_scramble.duplicate();
        self.completed.push(SolveRecord { scramble, duration_ms });
        proof {
            assert(self.completed_views()
                =~= old(self).completed_views().push((old(self).current(), duration_ms)));
            assert(self.durations() =~= old(self).durations().push(duration_ms));
        }
        let ghost mid = *self;
        self.next_scramble();
        proof {
            assert(self.completed_views() == mid.completed_views());
            assert(self.durations() == mid.durations());
        }
    }

    /// The trimmed-mean average of the five most recent solve durations:
    /// undefined while fewer than five solves are completed; otherwise one
    /// occurrence of the window's maximum and one of its minimum are
    /// discarded and the remaining three durations are averaged with
    /// truncating division.
    pub fn average_of_five(&self) -> (r: Option<u64>)
        ensures
            r == ao5_ms(self.durations()),
            r is Some <==> self.durations().len() >= AO5_WINDOW,
    {
        let n = self.completed.len();
        if n < AO5_WINDOW {
            proof {
                assert(self.durations().len() == n);
            }
            return None;
        }
        let ghost w = last_five(self.durations());
        let start = n - AO5_WINDOW;
        let mut sum: u128 = 0;
        let mut mx: u64 = self.completed[start].duration_ms;
        let mut mn: u64 = self.completed[start].duration_ms;
        let mut i: usize = start;
        while i < n
            invariant
                start == n - AO5_WINDOW,
                start <= i <= n,
                n == self.completed@.len(),
                w == last_five(self.durations()),
                w.len() == AO5_WINDOW,
                forall|j: int| 0 <= j < w.len() ==> #[trigger] w[j]
                    == self.completed@[start + j].duration_ms,
                sum == seq_sum(w.subrange(0, i - start)),
                sum <= (i - start) * (u64::MAX as int),
                i > start ==> mx == seq_max(w.subrange(0, i - start)),
                i > start ==> mn == seq_min(w.subrange(0, i - start)),
            decreases n - i,
        {
            let d = self.completed[i].duration_ms;
            proof {
                let k = i - start;
                assert(w.subrange(0, k + 1).drop_last() =~= w.subrange(0, k));
                assert(w.subrange(0, k + 1).last() == w[k]);
                if i == start {
                    assert(w.subrange(0, 1)[0] == w[0]);
                }
            }
            sum = sum + d as u128;
            if i == start {
                mx = d;
                mn = d;
            } else {
                if d > mx {
                    mx = d;
                }
                if d < mn {
                    mn = d;
                }
            }
            i = i + 1;
        }
        proof {
            assert(w.subrange(0, AO5_WINDOW as int) =~= w);
            lemma_sum_bounds(w);
        }
        let remainder: u128 = sum - mx as u128 - mn as u128;
        let avg: u64 = (remainder / 3) as u64;
        proof {
            assert(avg == trimmed_mean(w));
            assert(ao5_ms(self.durations()) == Some(trimmed_mean(w) as u64));
        }
        Some(avg)
    }
}

/// The completed log is append-only: recording a solve, which extends the
/// log exactly as `record_solve` promises, grows it by exactly one record,
/// leaves every earlier record in place and in its position, and puts the
/// new record — the prior current scramble with the measured duration —
/// at the end.
pub proof fn lemma_history_append_only(
    pre: SessionHistory,
    post: SessionHistory,
    duration_ms: u64,
)
    requires
        post.completed_views() == pre.completed_views().push((pre.current(), duration_ms)),
    ensures
        post.completed_views().len() == pre.completed_views().len() + 1,
        forall|i: int| 0 <= i < pre.completed_views().len()
            ==> post.completed_views()[i] == #[trigger] pre.completed_views()[i],
        post.completed_views().last() == (pre.current(), duration_ms),
{
}

/// Scramble navigation round trip: skipping ahead and then immediately
/// navigating back restores the exact prior current scramble, token for
/// token, along with the prior pending stack; the completed log is never
/// touched by navigation. `after_next` is any state `next_scramble` can
/// leave behind from `before`, and `after_back` any state
/// `previous_scramble` can leave behind from `after_next`, each constrained
/// exactly as the respective contract promises.
pub proof fn lemma_scramble_navigation(
    before: SessionHistory,
    after_next: SessionHistory,
    after_back: SessionHistory,
)
    requires
        after_next.completed_views() == before.completed_views(),
        after_next.pending_views() == before.pending_views().push(before.current()),
        after_back.completed_views() == after_next.completed_views(),
        after_next.pending_views().len() > 0 ==> {
            &&& after_back.current() == after_next.pending_views().last()
            &&& after_back.pending_views() == after_next.pending_views().drop_last()
        },
    ensures
        after_back.current() == before.current(),
        after_back.pending_views() == before.pending_views(),
        after_back.completed_views() == before.completed_views(),
{
    assert(after_next.pending_views().len() > 0);
    assert(after_next.pending_views().last() == before.current());
    assert(after_next.pending_views().drop_last() =~= before.pending_views());
}

} // verus!
