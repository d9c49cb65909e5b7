//! The statistics aggregator: the trimmed-mean "average of five" over the
//! five most recent solve durations. One occurrence of the maximum and one
//! of the minimum are discarded, and the remaining three are averaged with
//! truncating division; since only the count of removed occurrences matters,
//! the result is the window's sum less one maximum and one minimum, over
//! three.

use vstd::prelude::*;

verus! {

/// How many completed solves the average needs, and how wide its window is.
pub const AO5_WINDOW: usize = 5;

/// The sum of a sequence of millisecond durations.
pub open spec fn seq_sum(s: Seq<u64>) -> int
    decreases s.len(),
{
    if s.len() == 0 {
        0
    } else {
        seq_sum(s.drop_last()) + s.last()
    }
}

/// The largest value of a non-empty sequence.
pub open spec fn seq_max(s: Seq<u64>) -> u64
    recommends
        s.len() > 0,
    decreases s.len(),
{
    if s.len() <= 1 {
        s[0]
    } else if s.last() > seq_max(s.drop_last()) {
        s.last()
    } else {
        seq_max(s.drop_last())
    }
}

/// The smallest value of a non-empty sequence.
pub open spec fn seq_min(s: Seq<u64>) -> u64
    recommends
        s.len() > 0,
    decreases s.len(),
{
    if s.len() <= 1 {
        s[0]
    } else if s.last() < seq_min(s.drop_last()) {
        s.last()
    } else {
        seq_min(s.drop_last())
    }
}

/// The five most recent durations, oldest of the five first.
pub open spec fn last_five(durs: Seq<u64>) -> Seq<u64>
    recommends
        durs.len() >= AO5_WINDOW,
{
    durs.subrange(durs.len() - AO5_WINDOW, durs.len() as int)
}

/// The trimmed mean of a window: its sum less one occurrence of the maximum
/// and one of the minimum, divided by the three remaining entries.
pub open spec fn trimmed_mean(w: Seq<u64>) -> int
    recommends
        w.len() == AO5_WINDOW,
{
    (seq_sum(w) - seq_max(w) - seq_min(w)) / 3
}

/// The average of five over a full duration history: undefined below five
/// completed solves, else the trimmed mean of the five most recent.
pub open spec fn ao5_ms(durs: Seq<u64>) -> Option<u64> {
    if durs.len() < AO5_WINDOW {
        None
    } else {
        Some(trimmed_mean(last_five(durs)) as u64)
    }
}

/// In a sequence of at least two entries, the sum is at least one maximum
/// plus one minimum, and at most that plus a full `u64` for every other
/// entry; so the trimmed remainder is non-negative and, for a window of
/// five, small enough that its third fits a `u64`.
pub proof fn lemma_sum_bounds(s: Seq<u64>)
    requires
        s.len() >= 2,
    ensures
        seq_max(s) + seq_min(s) <= seq_sum(s),
        seq_sum(s) <= (s.len() - 2) * (u64::MAX as int) + seq_max(s) + seq_min(s),
    decreases s.len(),
{
    if s.len() == 2 {
        let t = s.drop_last();
        assert(seq_sum(t) == seq_sum(t.drop_last()) + t.last());
        assert(seq_sum(t.drop_last()) == 0);
        assert(seq_max(t) == t[0]);
        assert(seq_min(t) == t[0]);
        assert(t.last() == s[0]);
    } else {
        let t = s.drop_last();
        lemma_sum_bounds(t);
        assert((s.len() - 2) * (u64::MAX as int)
            == (t.len() - 2) * (u64::MAX as int) + u64::MAX) by (nonlinear_arith)
            requires s.len() >= 3 && t.len() == s.len() - 1;
    }
}

} // verus!
