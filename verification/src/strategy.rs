//! Breaker-aware routing strategy with a round-robin fairness counter.

use vstd::prelude::*;
use crate::breaker::Breaker;

verus! {

/// The fairness counter advanced by one tick, wrapping at the top of `u64`.
pub open spec fn spec_wrap_inc(k: u64) -> u64 {
    if k == u64::MAX {
        0
    } else {
        (k + 1) as u64
    }
}

/// Decides which upstream a dispatch attempts first.
///
/// When exactly one of the two breakers is open, the healthy upstream is
/// primary. Otherwise (both closed or both open) the choice alternates on a
/// shared fairness counter: the pick consumes one tick and upstream A leads
/// exactly on the even ticks. Callers that share one strategy across
/// concurrent tasks serialize its updates; the contracts below describe each
/// serialized step exactly.
#[derive(Clone, Copy, PartialEq, Eq, Structural, Debug)]
pub struct RouteStrategy {
    /// The fairness counter; counts every dispatch attempt that either
    /// reached the tie-break or skipped its primary entirely.
    pub skew: u64,
}

impl RouteStrategy {
    /// A tie-break on counter value `skew` puts upstream A first.
    pub open spec fn spec_tie_pick(skew: u64) -> bool {
        skew % 2 == 0
    }

    /// The pick, as a function of the counter and the two breakers' states.
    pub open spec fn spec_pick_a_first(skew: u64, a_open: bool, b_open: bool) -> bool {
        if a_open && !b_open {
            false
        } else if b_open && !a_open {
            true
        } else {
            Self::spec_tie_pick(skew)
        }
    }

    /// The counter after a pick: only a tie-break consumes a tick.
    pub open spec fn spec_skew_after_pick(skew: u64, a_open: bool, b_open: bool) -> u64 {
        if a_open != b_open {
            skew
        } else {
            spec_wrap_inc(skew)
        }
    }

    /// Creates a strategy whose fairness counter starts at zero.
    pub fn new() -> (r: RouteStrategy)
        ensures
            r.skew == 0,
    {
        RouteStrategy { skew: 0 }
    }

    /// Picks whether upstream A is attempted before upstream B, given both
    /// breakers' states at instant `now_ms`: the healthy upstream leads when
    /// exactly one breaker is open, and otherwise the shared fairness counter
    /// alternates the lead.
    pub fn pick_a_first(&mut self, a: &Breaker, b: &Breaker, now_ms: u64) -> (r: bool)
        ensures
            r == Self::spec_pick_a_first(
                old(self).skew,
                a.spec_is_open(now_ms),
                b.spec_is_open(now_ms),
            ),
            final(self).skew == Self::spec_skew_after_pick(
                old(self).skew,
                a.spec_is_open(now_ms),
                b.spec_is_open(now_ms),
            ),
            a.spec_is_open(now_ms) && !b.spec_is_open(now_ms) ==> r == false,
            b.spec_is_open(now_ms) && !a.spec_is_open(now_ms) ==> r == true,
    {
        let a_open = a.is_open(now_ms);
        let b_open = b.is_open(now_ms);
        if a_open && !b_open {
            return false;
        }
        if b_open && !a_open {
            return true;
        }
        let k = self.skew;
        self.skew = if k == u64::MAX {
            0
        } else {
            k + 1
        };
        k % 2 == 0
    }

    /// Consumes one fairness-counter tick without making a decision; called
    /// when a dispatch bypassed its primary entirely, so the counter keeps
    /// reflecting every dispatch attempt.
    pub fn note_skip_primary(&mut self)
        ensures
            final(self).skew == spec_wrap_inc(old(self).skew),
    {
        let k = self.skew;
        self.skew = if k == u64::MAX {
            0
        } else {
            k + 1
        };
    }
}

/// Law: consecutive tie-breaks alternate — the tie-break at a counter value
/// and the tie-break one tick later always disagree.
pub proof fn lemma_tie_pick_alternates(k: u64)
    ensures
        RouteStrategy::spec_tie_pick(k) != RouteStrategy::spec_tie_pick(spec_wrap_inc(k)),
{
}

/// Law: while both breakers stay in the same state (both open or both
/// closed), a pick consumes one tick and the next pick disagrees with it —
/// the lead alternates deterministically in lock-step with the counter.
pub proof fn lemma_consecutive_picks_alternate(skew: u64, a_open: bool, b_open: bool)
    requires
        a_open == b_open,
    ensures
        RouteStrategy::spec_pick_a_first(skew, a_open, b_open)
            != RouteStrategy::spec_pick_a_first(
            RouteStrategy::spec_skew_after_pick(skew, a_open, b_open),
            a_open,
            b_open,
        ),
{
    lemma_tie_pick_alternates(skew);
}

} // verus!
