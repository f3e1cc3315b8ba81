//! Failure-rate circuit breaker for one upstream.

use vstd::prelude::*;

verus! {

/// What one observed call outcome did: the call failed or succeeded.
#[derive(Clone, Copy, PartialEq, Eq, Structural, Debug)]
pub enum BreakerEvent {
    Failure,
    Success,
}

/// Failure-rate circuit breaker for one upstream.
///
/// The breaker accumulates a counting window of observed call outcomes.
/// After every observation it evaluates the window: once it holds at least
/// `min_samples` observations and the failure ratio `fails / total` has
/// reached the threshold, the breaker opens — it records the opening instant
/// and clears the window. While open, `is_open` reports `true` until
/// `open_for_ms` milliseconds have elapsed; afterwards traffic is permitted
/// again and the window simply keeps accumulating (there is no separate
/// half-open state).
///
/// The threshold is the exact rational `fail_rate_num / fail_rate_den`, and
/// the open condition `fails / total >= threshold` is evaluated over the
/// integers as `fails * fail_rate_den >= fail_rate_num * total`. An empty
/// window (`total == 0`) never opens the breaker.
///
/// Every query and update takes the current time as an explicit `now_ms`
/// argument (milliseconds on a monotonic-enough clock, with `0` reserved to
/// mean "never opened"), so each method is a pure state transition verified
/// for every clock value. Callers that share one breaker across concurrent
/// tasks serialize its updates; the contracts below describe each serialized
/// step exactly.
#[derive(Clone, Copy, PartialEq, Eq, Structural, Debug)]
pub struct Breaker {
    /// Minimum number of observations in the window before the failure rate
    /// is evaluated at all.
    pub min_samples: u64,
    /// Numerator of the failure-rate threshold.
    pub fail_rate_num: u64,
    /// Denominator of the failure-rate threshold; always positive.
    pub fail_rate_den: u64,
    /// How long the breaker stays open, in milliseconds.
    pub open_for_ms: u64,
    /// Failures observed in the current window.
    pub fails: u64,
    /// Observations (failures and successes) in the current window.
    pub total: u64,
    /// Instant the breaker last opened, in milliseconds; `0` when it never
    /// opened.
    pub opened_at_ms: u64,
}

impl Breaker {
    /// The breaker's internal invariant: the threshold denominator is
    /// positive and the window never counts more failures than observations.
    pub open spec fn wf(self) -> bool {
        &&& self.fail_rate_den > 0
        &&& self.fails <= self.total
    }

    /// The window holds enough samples and the failure ratio has reached the
    /// threshold, so an evaluation at this state opens the breaker.
    pub open spec fn spec_should_open(self) -> bool {
        &&& self.total >= self.min_samples
        &&& self.total > 0
        &&& self.fails * self.fail_rate_den >= self.fail_rate_num * self.total
    }

    /// The state after one evaluation at instant `now_ms`: either unchanged,
    /// or opened with the window cleared.
    pub open spec fn spec_recalc(self, now_ms: u64) -> Breaker {
        if self.spec_should_open() {
            Breaker { fails: 0, total: 0, opened_at_ms: now_ms, ..self }
        } else {
            self
        }
    }

    /// The window counters after recording `ev`, before any evaluation.
    pub open spec fn spec_stepped(self, ev: BreakerEvent) -> Breaker {
        Breaker {
            fails: if ev is Failure {
                (self.fails + 1) as u64
            } else {
                self.fails
            },
            total: (self.total + 1) as u64,
            ..self
        }
    }

    /// The state after one full observation at instant `now_ms`: the window
    /// is advanced by `ev` and then evaluated.
    pub open spec fn spec_observe(self, ev: BreakerEvent, now_ms: u64) -> Breaker {
        self.spec_stepped(ev).spec_recalc(now_ms)
    }

    /// The breaker blocks traffic at instant `now_ms`: it has opened, and
    /// fewer than `open_for_ms` milliseconds have elapsed since. Instants
    /// before the opening (a clock that jumped back) count as zero elapsed.
    pub open spec fn spec_is_open(self, now_ms: u64) -> bool {
        &&& self.opened_at_ms != 0
        &&& (if now_ms >= self.opened_at_ms {
            now_ms - self.opened_at_ms
        } else {
            0
        }) < self.open_for_ms
    }

    /// Creates a closed breaker with an empty window.
    pub fn new(min_samples: u64, fail_rate_num: u64, fail_rate_den: u64, open_for_ms: u64) -> (r:
        Breaker)
        requires
            fail_rate_den > 0,
        ensures
            r == (Breaker {
                min_samples,
                fail_rate_num,
                fail_rate_den,
                open_for_ms,
                fails: 0,
                total: 0,
                opened_at_ms: 0,
            }),
            r.wf(),
    {
        Breaker {
            min_samples,
            fail_rate_num,
            fail_rate_den,
            open_for_ms,
            fails: 0,
            total: 0,
            opened_at_ms: 0,
        }
    }

    /// Evaluates the current window at instant `now_ms` and opens the breaker
    /// when the open condition holds.
    fn recalc(&mut self, now_ms: u64)
        requires
            old(self).wf(),
        ensures
            *final(self) == old(self).spec_recalc(now_ms),
            final(self).wf(),
    {
        if self.total < self.min_samples {
            return ;
        }
        if self.total == 0 {
            return ;
        }
        proof {
            assert((self.fails as int) * (self.fail_rate_den as int) <= (u64::MAX as int) * (
            u64::MAX as int)) by (nonlinear_arith)
                requires
                    self.fails <= u64::MAX,
                    self.fail_rate_den <= u64::MAX,
            ;
            assert((self.fail_rate_num as int) * (self.total as int) <= (u64::MAX as int) * (
            u64::MAX as int)) by (nonlinear_arith)
                requires
                    self.fail_rate_num <= u64::MAX,
                    self.total <= u64::MAX,
            ;
        }
        let reached: bool = (self.fails as u128) * (self.fail_rate_den as u128) >= (
        self.fail_rate_num as u128) * (self.total as u128);
        if reached {
            self.opened_at_ms = now_ms;
            self.fails = 0;
            self.total = 0;
        }
    }

    /// Records a failed call at instant `now_ms`: both counters advance and
    /// the window is evaluated.
    pub fn on_failure(&mut self, now_ms: u64)
        requires
            old(self).wf(),
            old(self).total < u64::MAX,
        ensures
            *final(self) == old(self).spec_observe(BreakerEvent::Failure, now_ms),
            final(self).wf(),
    {
        self.fails = self.fails + 1;
        self.total = self.total + 1;
        self.recalc(now_ms);
    }

    /// Records a successful call at instant `now_ms`: only the observation
    /// counter advances, and the window is still evaluated (successes do not
    /// clear earlier failures, so the ratio can stay above the threshold).
    pub fn on_success(&mut self, now_ms: u64)
        requires
            old(self).wf(),
            old(self).total < u64::MAX,
        ensures
            *final(self) == old(self).spec_observe(BreakerEvent::Success, now_ms),
            final(self).wf(),
    {
        self.total = self.total + 1;
        self.recalc(now_ms);
    }

    /// Reports whether the breaker blocks traffic at instant `now_ms`.
    pub fn is_open(&self, now_ms: u64) -> (r: bool)
        ensures
            r == self.spec_is_open(now_ms),
    {
        if self.opened_at_ms == 0 {
            return false;
        }
        let elapsed: u64 = if now_ms >= self.opened_at_ms {
            now_ms - self.opened_at_ms
        } else {
            0
        };
        elapsed < self.open_for_ms
    }
}

/// The breaker state after running a whole trace of observations, each with
/// the instant at which it was recorded.
pub open spec fn spec_run(b: Breaker, evs: Seq<(BreakerEvent, u64)>) -> Breaker
    decreases evs.len(),
{
    if evs.len() == 0 {
        b
    } else {
        spec_run(b.spec_observe(evs[0].0, evs[0].1), evs.subrange(1, evs.len() as int))
    }
}

/// Law: a trace of observations moves the recorded opening instant only if at
/// some step the freshly advanced window held at least `min_samples`
/// observations with a failure ratio at or above the threshold.
pub proof fn lemma_opening_needs_threshold(b: Breaker, evs: Seq<(BreakerEvent, u64)>)
    ensures
        spec_run(b, evs).opened_at_ms != b.opened_at_ms ==> exists|i: int|
            0 <= i < evs.len() && (#[trigger] spec_run(b, evs.take(i))).spec_stepped(
                evs[i].0,
            ).spec_should_open(),
    decreases evs.len(),
{
    if evs.len() == 0 {
    } else {
        let b1 = b.spec_observe(evs[0].0, evs[0].1);
        let rest = evs.subrange(1, evs.len() as int);
        lemma_opening_needs_threshold(b1, rest);
        assert(evs.take(0) =~= Seq::<(BreakerEvent, u64)>::empty());
        if spec_run(b, evs).opened_at_ms != b.opened_at_ms {
            if b1.opened_at_ms != b.opened_at_ms {
                assert(spec_run(b, evs.take(0)) == b);
                assert(b.spec_stepped(evs[0].0).spec_should_open());
            } else {
                let j = choose|j: int|
                    0 <= j < rest.len() && (#[trigger] spec_run(b1, rest.take(j))).spec_stepped(
                        rest[j].0,
                    ).spec_should_open();
                assert(evs.take(j + 1).subrange(1, j + 1) =~= rest.take(j));
                assert(evs.take(j + 1)[0] == evs[0]);
                assert(spec_run(b, evs.take(j + 1)) == spec_run(b1, rest.take(j)));
                assert(evs[j + 1] == rest[j]);
            }
        }
    }
}

/// Law: a breaker that never opened reports open after a trace of
/// observations only if at some step the freshly advanced window held at
/// least `min_samples` observations with a failure ratio at or above the
/// threshold.
pub proof fn lemma_is_open_needs_threshold(b: Breaker, evs: Seq<(BreakerEvent, u64)>, t: u64)
    requires
        b.opened_at_ms == 0,
    ensures
        spec_run(b, evs).spec_is_open(t) ==> exists|i: int|
            0 <= i < evs.len() && (#[trigger] spec_run(b, evs.take(i))).spec_stepped(
                evs[i].0,
            ).spec_should_open(),
{
    lemma_opening_needs_threshold(b, evs);
}

/// Law: once an opening instant is recorded, the breaker reports open at
/// every instant less than `open_for_ms` past the opening, and closed from
/// `open_for_ms` onward.
pub proof fn lemma_open_window(b: Breaker, t: u64)
    requires
        b.opened_at_ms != 0,
    ensures
        b.opened_at_ms <= t && t - b.opened_at_ms < b.open_for_ms ==> b.spec_is_open(t),
        t >= b.opened_at_ms + b.open_for_ms ==> !b.spec_is_open(t),
{
}

} // verus!
