//! Per-upstream request statistics, read and reset as one consistent pair.

use vstd::prelude::*;
use crate::upstream::Upstream;

verus! {

/// Counters for one upstream: how many dispatches succeeded through it and
/// the sum of their amounts (in minor currency units).
#[derive(Clone, Copy, PartialEq, Eq, Structural, Debug)]
pub struct ProcessorStats {
    pub total_requests: u64,
    pub total_amount: u64,
}

/// Statistics for both upstreams.
///
/// The pair is meant to be read and written as one unit — a summary must
/// never observe a request counted without its amount — so callers that share
/// an aggregator across concurrent tasks put it behind one exclusive section
/// and perform each `record`, `snapshot` or `reset` inside it. The contracts
/// below describe each such serialized step exactly.
#[derive(Clone, Copy, PartialEq, Eq, Structural, Debug)]
pub struct StatsAggregator {
    /// Counters for upstream A (reported as the "default" processor).
    pub a: ProcessorStats,
    /// Counters for upstream B (reported as the "fallback" processor).
    pub b: ProcessorStats,
}

/// The aggregator state after recording one successful dispatch of `amount`
/// through upstream `u`.
pub open spec fn spec_record(s: StatsAggregator, u: Upstream, amount: u64) -> StatsAggregator {
    match u {
        Upstream::A => StatsAggregator {
            a: ProcessorStats {
                total_requests: (s.a.total_requests + 1) as u64,
                total_amount: (s.a.total_amount + amount) as u64,
            },
            b: s.b,
        },
        Upstream::B => StatsAggregator {
            a: s.a,
            b: ProcessorStats {
                total_requests: (s.b.total_requests + 1) as u64,
                total_amount: (s.b.total_amount + amount) as u64,
            },
        },
    }
}

impl StatsAggregator {
    /// The counters recorded for upstream `u`.
    pub open spec fn spec_stat(self, u: Upstream) -> ProcessorStats {
        match u {
            Upstream::A => self.a,
            Upstream::B => self.b,
        }
    }

    /// Creates an aggregator with all counters at zero.
    pub fn new() -> (r: StatsAggregator)
        ensures
            r == (StatsAggregator {
                a: ProcessorStats { total_requests: 0, total_amount: 0 },
                b: ProcessorStats { total_requests: 0, total_amount: 0 },
            }),
    {
        StatsAggregator {
            a: ProcessorStats { total_requests: 0, total_amount: 0 },
            b: ProcessorStats { total_requests: 0, total_amount: 0 },
        }
    }

    /// Counts one successful dispatch of `amount` through upstream
    /// `upstream`: its request counter advances by one and its amount
    /// accumulator by `amount`; the other upstream's counters are untouched.
    pub fn record(&mut self, upstream: Upstream, amount: u64)
        requires
            old(self).spec_stat(upstream).total_requests < u64::MAX,
            old(self).spec_stat(upstream).total_amount + amount <= u64::MAX,
        ensures
            *final(self) == spec_record(*old(self), upstream, amount),
    {
        match upstream {
            Upstream::A => {
                self.a.total_requests = self.a.total_requests + 1;
                self.a.total_amount = self.a.total_amount + amount;
            },
            Upstream::B => {
                self.b.total_requests = self.b.total_requests + 1;
                self.b.total_amount = self.b.total_amount + amount;
            },
        }
    }

    /// Returns a point-in-time copy of both upstreams' counters.
    pub fn snapshot(&self) -> (r: StatsAggregator)
        ensures
            r == *self,
    {
        StatsAggregator { a: self.a, b: self.b }
    }

    /// Zeroes both upstreams' counters.
    pub fn reset(&mut self)
        ensures
            *final(self) == (StatsAggregator {
                a: ProcessorStats { total_requests: 0, total_amount: 0 },
                b: ProcessorStats { total_requests: 0, total_amount: 0 },
            }),
    {
        self.a.total_requests = 0;
        self.a.total_amount = 0;
        self.b.total_requests = 0;
        self.b.total_amount = 0;
    }
}

/// The aggregator state after recording a whole batch of successful
/// dispatches, each an `(upstream, amount)` pair.
pub open spec fn spec_run_records(s: StatsAggregator, rs: Seq<(Upstream, u64)>) -> StatsAggregator
    decreases rs.len(),
{
    if rs.len() == 0 {
        s
    } else {
        spec_run_records(spec_record(s, rs[0].0, rs[0].1), rs.subrange(1, rs.len() as int))
    }
}

/// How many records in the batch went to upstream `u`.
pub open spec fn spec_count_for(rs: Seq<(Upstream, u64)>, u: Upstream) -> int
    decreases rs.len(),
{
    if rs.len() == 0 {
        0
    } else {
        (if rs[0].0 == u {
            1int
        } else {
            0int
        }) + spec_count_for(rs.subrange(1, rs.len() as int), u)
    }
}

/// The sum of the amounts the batch recorded for upstream `u`.
pub open spec fn spec_sum_for(rs: Seq<(Upstream, u64)>, u: Upstream) -> int
    decreases rs.len(),
{
    if rs.len() == 0 {
        0
    } else {
        (if rs[0].0 == u {
            rs[0].1 as int
        } else {
            0int
        }) + spec_sum_for(rs.subrange(1, rs.len() as int), u)
    }
}

/// The batch counts and sums are never negative.
pub proof fn lemma_counts_nonneg(rs: Seq<(Upstream, u64)>, u: Upstream)
    ensures
        spec_count_for(rs, u) >= 0,
        spec_sum_for(rs, u) >= 0,
    decreases rs.len(),
{
    if rs.len() != 0 {
        lemma_counts_nonneg(rs.subrange(1, rs.len() as int), u);
    }
}

/// Law: recording a batch on top of any starting state adds exactly the
/// batch's per-upstream counts and sums, as long as the results stay in
/// range.
pub proof fn lemma_run_records_totals(s: StatsAggregator, rs: Seq<(Upstream, u64)>)
    requires
        s.a.total_requests + spec_count_for(rs, Upstream::A) <= u64::MAX,
        s.a.total_amount + spec_sum_for(rs, Upstream::A) <= u64::MAX,
        s.b.total_requests + spec_count_for(rs, Upstream::B) <= u64::MAX,
        s.b.total_amount + spec_sum_for(rs, Upstream::B) <= u64::MAX,
    ensures
        spec_run_records(s, rs).a.total_requests == s.a.total_requests + spec_count_for(
            rs,
            Upstream::A,
        ),
        spec_run_records(s, rs).a.total_amount == s.a.total_amount + spec_sum_for(rs, Upstream::A),
        spec_run_records(s, rs).b.total_requests == s.b.total_requests + spec_count_for(
            rs,
            Upstream::B,
        ),
        spec_run_records(s, rs).b.total_amount == s.b.total_amount + spec_sum_for(rs, Upstream::B),
    decreases rs.len(),
{
    if rs.len() != 0 {
        let rest = rs.subrange(1, rs.len() as int);
        lemma_counts_nonneg(rest, Upstream::A);
        lemma_counts_nonneg(rest, Upstream::B);
        lemma_run_records_totals(spec_record(s, rs[0].0, rs[0].1), rest);
    }
}

/// Law: after a batch of records from zeroed counters, a snapshot reports
/// exactly the batch's per-upstream counts and sums — whichever way
/// concurrent recordings were interleaved into the batch order.
pub proof fn lemma_snapshot_totals(rs: Seq<(Upstream, u64)>)
    requires
        spec_count_for(rs, Upstream::A) <= u64::MAX,
        spec_sum_for(rs, Upstream::A) <= u64::MAX,
        spec_count_for(rs, Upstream::B) <= u64::MAX,
        spec_sum_for(rs, Upstream::B) <= u64::MAX,
    ensures
        ({
            let z = StatsAggregator {
                a: ProcessorStats { total_requests: 0, total_amount: 0 },
                b: ProcessorStats { total_requests: 0, total_amount: 0 },
            };
            let r = spec_run_records(z, rs);
            &&& r.a.total_requests == spec_count_for(rs, Upstream::A)
            &&& r.a.total_amount == spec_sum_for(rs, Upstream::A)
            &&& r.b.total_requests == spec_count_for(rs, Upstream::B)
            &&& r.b.total_amount == spec_sum_for(rs, Upstream::B)
        }),
{
    let z = StatsAggregator {
        a: ProcessorStats { total_requests: 0, total_amount: 0 },
        b: ProcessorStats { total_requests: 0, total_amount: 0 },
    };
    lemma_counts_nonneg(rs, Upstream::A);
    lemma_counts_nonneg(rs, Upstream::B);
    lemma_run_records_totals(z, rs);
}

/// Law: two recordings commute — under the headroom that lets both orders
/// stay in range, the totals do not depend on which recording came first.
pub proof fn lemma_record_commutes(s: StatsAggregator, r1: (Upstream, u64), r2: (Upstream, u64))
    requires
        s.spec_stat(r1.0).total_requests + 2 <= u64::MAX,
        s.spec_stat(r2.0).total_requests + 2 <= u64::MAX,
        s.spec_stat(r1.0).total_amount + r1.1 + r2.1 <= u64::MAX,
        s.spec_stat(r2.0).total_amount + r1.1 + r2.1 <= u64::MAX,
    ensures
        spec_record(spec_record(s, r1.0, r1.1), r2.0, r2.1) == spec_record(
            spec_record(s, r2.0, r2.1),
            r1.0,
            r1.1,
        ),
{
}

} // verus!
