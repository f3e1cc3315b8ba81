//! The hedged dispatch state machine.
//!
//! One dispatch produces exactly one outcome per inbound payload. The
//! decisions — which upstream to try first, when the hedge starts the
//! secondary call, whose completion settles the race, and which breaker and
//! statistics the settled outcome feeds — live here as verified state
//! transitions. The surrounding runtime performs the actual calls, the
//! hedge-delay timer and the race, and drives this machine with the events
//! it observes; whichever call loses the race is abandoned and never fed
//! back, because only the single settling event reaches `report_outcome`.

use vstd::prelude::*;
use crate::breaker::{Breaker, BreakerEvent};
use crate::stats::{spec_record, StatsAggregator};
use crate::strategy::RouteStrategy;
use crate::upstream::{CallOutcome, Upstream, STATUS_INTERNAL_ERROR};

verus! {

/// The single outcome a dispatch settles on.
#[derive(Debug, Clone, PartialEq, Eq)]
pub enum DispatchOutcome {
    /// An upstream accepted the payment; `response` is its reply body.
    Success { upstream: Upstream, response: String },
    /// The dispatch failed: with the upstream whose failure was kept, or
    /// with no upstream when the execution unit ended abnormally before any
    /// answered.
    Failure { upstream: Option<Upstream>, status: u16, message: String },
}

/// Where one dispatch stands.
#[derive(Debug, Clone, PartialEq, Eq)]
pub enum DispatchState {
    /// The primary was skipped (its breaker was open); only the secondary
    /// call is in flight.
    SoleFlight { secondary: Upstream },
    /// The primary call is in flight, racing the hedge-delay timer.
    PrimaryFlight { primary: Upstream, secondary: Upstream },
    /// Both calls are in flight, racing each other.
    RaceFlight { primary: Upstream, secondary: Upstream },
    /// The dispatch settled on its outcome.
    Settled { outcome: DispatchOutcome },
}

/// What the runtime observed next for one dispatch.
#[derive(Debug, Clone, PartialEq, Eq)]
pub enum DispatchEvent {
    /// The first in-flight call to complete did so, with its classified
    /// outcome.
    Finished { upstream: Upstream, outcome: CallOutcome },
    /// The hedge delay elapsed before the primary call completed.
    HedgeElapsed,
    /// The execution unit running a call ended abnormally, so no upstream's
    /// answer is available or attributable.
    Aborted,
}

/// The outcome a dispatch settles on when upstream `u` finished first with
/// `oc`.
pub open spec fn spec_outcome_of(u: Upstream, oc: CallOutcome) -> DispatchOutcome {
    match oc {
        CallOutcome::Success { response } => DispatchOutcome::Success { upstream: u, response },
        CallOutcome::Failure { status, message } => DispatchOutcome::Failure {
            upstream: Some(u),
            status,
            message,
        },
    }
}

/// The event can actually occur in the state: only an in-flight upstream
/// finishes, the hedge timer only runs while the primary flies alone, and a
/// settled dispatch sees no further events.
pub open spec fn spec_event_fits(state: DispatchState, event: DispatchEvent) -> bool {
    match state {
        DispatchState::SoleFlight { secondary } => match event {
            DispatchEvent::Finished { upstream, .. } => upstream == secondary,
            DispatchEvent::HedgeElapsed => false,
            DispatchEvent::Aborted => true,
        },
        DispatchState::PrimaryFlight { primary, .. } => match event {
            DispatchEvent::Finished { upstream, .. } => upstream == primary,
            DispatchEvent::HedgeElapsed => true,
            DispatchEvent::Aborted => true,
        },
        DispatchState::RaceFlight { primary, secondary } => match event {
            DispatchEvent::Finished { upstream, .. } => upstream == primary || upstream
                == secondary,
            DispatchEvent::HedgeElapsed => false,
            DispatchEvent::Aborted => true,
        },
        DispatchState::Settled { .. } => false,
    }
}

/// Opens a dispatch: picks the order, and either skips an open primary
/// (counting the skip on the fairness counter) to call only the secondary,
/// or puts the primary in flight under the hedge timer. Returns the new
/// state and the upstream whose call the runtime starts now.
pub fn start_dispatch(
    strategy: &mut RouteStrategy,
    breaker_a: &Breaker,
    breaker_b: &Breaker,
    now_ms: u64,
) -> (r: (DispatchState, Upstream))
    ensures
        ({
            let a_open = breaker_a.spec_is_open(now_ms);
            let b_open = breaker_b.spec_is_open(now_ms);
            let pick_a = RouteStrategy::spec_pick_a_first(old(strategy).skew, a_open, b_open);
            let primary = if pick_a {
                Upstream::A
            } else {
                Upstream::B
            };
            let secondary = if pick_a {
                Upstream::B
            } else {
                Upstream::A
            };
            let skew1 = RouteStrategy::spec_skew_after_pick(old(strategy).skew, a_open, b_open);
            let primary_open = if pick_a {
                a_open
            } else {
                b_open
            };
            if primary_open {
                &&& r.0 == (DispatchState::SoleFlight { secondary })
                &&& r.1 == secondary
                &&& final(strategy).skew == crate::strategy::spec_wrap_inc(skew1)
            } else {
                &&& r.0 == (DispatchState::PrimaryFlight { primary, secondary })
                &&& r.1 == primary
                &&& final(strategy).skew == skew1
            }
        }),
{
    let pick_a = strategy.pick_a_first(breaker_a, breaker_b, now_ms);
    let primary = if pick_a {
        Upstream::A
    } else {
        Upstream::B
    };
    let secondary = if pick_a {
        Upstream::B
    } else {
        Upstream::A
    };
    let primary_open = if pick_a {
        breaker_a.is_open(now_ms)
    } else {
        breaker_b.is_open(now_ms)
    };
    if primary_open {
        strategy.note_skip_primary();
        (DispatchState::SoleFlight { secondary }, secondary)
    } else {
        (DispatchState::PrimaryFlight { primary, secondary }, primary)
    }
}

/// Advances a dispatch by one observed event. The first completion settles
/// the dispatch on that call's outcome; the hedge delay elapsing turns the
/// lone primary flight into a two-way race and tells the runtime to start
/// the secondary call (the second component of the result); an abnormal end
/// of the execution unit settles on an unattributed internal failure.
pub fn dispatch_step(state: DispatchState, event: DispatchEvent) -> (r: (
    DispatchState,
    Option<Upstream>,
))
    requires
        spec_event_fits(state, event),
    ensures
        match event {
            DispatchEvent::Finished { upstream, outcome } => r.0 == (DispatchState::Settled {
                outcome: spec_outcome_of(upstream, outcome),
            }) && r.1 is None,
            DispatchEvent::HedgeElapsed => state matches DispatchState::PrimaryFlight {
                primary,
                secondary,
            } && r.0 == (DispatchState::RaceFlight { primary, secondary }) && r.1 == Some(
                secondary,
            ),
            DispatchEvent::Aborted => {
                &&& r.1 is None
                &&& (r.0 matches DispatchState::Settled {
                    outcome: DispatchOutcome::Failure { upstream, status, message },
                } && upstream is None && status == STATUS_INTERNAL_ERROR && message@
                    == "dispatch execution failed before an upstream answered"@)
            },
        },
{
    match event {
        DispatchEvent::Finished { upstream, outcome } => {
            let settled = match outcome {
                CallOutcome::Success { response } => DispatchOutcome::Success {
                    upstream,
                    response,
                },
                CallOutcome::Failure { status, message } => DispatchOutcome::Failure {
                    upstream: Some(upstream),
                    status,
                    message,
                },
            };
            (DispatchState::Settled { outcome: settled }, None)
        },
        DispatchEvent::HedgeElapsed => {
            match state {
                DispatchState::PrimaryFlight { primary, secondary } => (
                    DispatchState::RaceFlight { primary, secondary },
                    Some(secondary),
                ),
                other => {
                    proof {
                        assert(false);
                    }
                    (other, None)
                },
            }
        },
        DispatchEvent::Aborted => (
            DispatchState::Settled {
                outcome: DispatchOutcome::Failure {
                    upstream: None,
                    status: STATUS_INTERNAL_ERROR,
                    message: "dispatch execution failed before an upstream answered".to_owned(),
                },
            },
            None,
        ),
    }
}

/// Feeds one settled outcome back: the answering upstream's breaker gets
/// exactly one observation (success or failure), the other breaker is left
/// untouched, and a success is counted in the statistics; an unattributed
/// failure touches nothing.
pub fn report_outcome(
    breaker_a: &mut Breaker,
    breaker_b: &mut Breaker,
    stats: &mut StatsAggregator,
    outcome: &DispatchOutcome,
    amount: u64,
    now_ms: u64,
) -> (r: ())
    requires
        ({
            let touched = match outcome {
                DispatchOutcome::Success { upstream, .. } => Some(*upstream),
                DispatchOutcome::Failure { upstream, .. } => *upstream,
            };
            &&& (touched == Some(Upstream::A) ==> old(breaker_a).wf() && old(breaker_a).total
                < u64::MAX)
            &&& (touched == Some(Upstream::B) ==> old(breaker_b).wf() && old(breaker_b).total
                < u64::MAX)
            &&& (match outcome {
                DispatchOutcome::Success { upstream, .. } => old(stats).spec_stat(
                    *upstream,
                ).total_requests < u64::MAX && old(stats).spec_stat(*upstream).total_amount + amount
                    <= u64::MAX,
                DispatchOutcome::Failure { .. } => true,
            })
        }),
    ensures
        match outcome {
            DispatchOutcome::Success { upstream, .. } => {
                &&& *final(stats) == spec_record(*old(stats), *upstream, amount)
                &&& (upstream is A ==> *final(breaker_a) == old(breaker_a).spec_observe(
                    BreakerEvent::Success,
                    now_ms,
                ) && *final(breaker_b) == *old(breaker_b))
                &&& (upstream is B ==> *final(breaker_b) == old(breaker_b).spec_observe(
                    BreakerEvent::Success,
                    now_ms,
                ) && *final(breaker_a) == *old(breaker_a))
            },
            DispatchOutcome::Failure { upstream, .. } => {
                &&& *final(stats) == *old(stats)
                &&& (upstream == Some(Upstream::A) ==> *final(breaker_a) == old(
                    breaker_a,
                ).spec_observe(BreakerEvent::Failure, now_ms) && *final(breaker_b) == *old(
                    breaker_b,
                ))
                &&& (upstream == Some(Upstream::B) ==> *final(breaker_b) == old(
                    breaker_b,
                ).spec_observe(BreakerEvent::Failure, now_ms) && *final(breaker_a) == *old(
                    breaker_a,
                ))
                &&& (upstream is None ==> *final(breaker_a) == *old(breaker_a) && *final(breaker_b)
                    == *old(breaker_b))
            },
        },
{
    match outcome {
        DispatchOutcome::Success { upstream, .. } => {
            match upstream {
                Upstream::A => breaker_a.on_success(now_ms),
                Upstream::B => breaker_b.on_success(now_ms),
            }
            stats.record(*upstream, amount);
        },
        DispatchOutcome::Failure { upstream, .. } => {
            match upstream {
                Some(Upstream::A) => breaker_a.on_failure(now_ms),
                Some(Upstream::B) => breaker_b.on_failure(now_ms),
                None => (),
            }
        },
    }
}

} // verus!
