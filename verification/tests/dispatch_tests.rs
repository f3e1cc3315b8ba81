use p99::breaker::Breaker;
use p99::dispatch::{
    dispatch_step, report_outcome, start_dispatch, DispatchEvent, DispatchOutcome, DispatchState,
};
use p99::stats::StatsAggregator;
use p99::strategy::RouteStrategy;
use p99::upstream::{classify_reply, CallOutcome, Upstream};

fn closed_breaker() -> Breaker {
    Breaker::new(2, 1, 2, 1000)
}

fn open_breaker(at_ms: u64) -> Breaker {
    let mut b = Breaker::new(1, 1, 1, 60_000);
    b.on_failure(at_ms);
    assert!(b.is_open(at_ms));
    b
}

#[test]
fn dispatch_hedge_settles_on_secondary_without_waiting_for_primary() {
    // Both breakers closed, fresh strategy: the even tick puts A first.
    let mut strategy = RouteStrategy::new();
    let a = closed_breaker();
    let b = closed_breaker();
    let (state, first_call) = start_dispatch(&mut strategy, &a, &b, 1_000);
    assert_eq!(first_call, Upstream::A);
    assert_eq!(
        state,
        DispatchState::PrimaryFlight { primary: Upstream::A, secondary: Upstream::B }
    );
    // The hedge delay elapses before the primary answers: the secondary
    // starts and the two race.
    let (state, start_now) = dispatch_step(state, DispatchEvent::HedgeElapsed);
    assert_eq!(start_now, Some(Upstream::B));
    assert_eq!(
        state,
        DispatchState::RaceFlight { primary: Upstream::A, secondary: Upstream::B }
    );
    // The secondary answers first; the dispatch settles on its result while
    // the primary is still in flight.
    let reply = classify_reply(Some(200), "ok".to_string());
    let (state, start_now) =
        dispatch_step(state, DispatchEvent::Finished { upstream: Upstream::B, outcome: reply });
    assert_eq!(start_now, None);
    assert_eq!(
        state,
        DispatchState::Settled {
            outcome: DispatchOutcome::Success { upstream: Upstream::B, response: "ok".to_string() }
        }
    );
}

#[test]
fn dispatch_primary_fast_path_never_starts_secondary() {
    let mut strategy = RouteStrategy::new();
    let a = closed_breaker();
    let b = closed_breaker();
    let (state, first_call) = start_dispatch(&mut strategy, &a, &b, 1_000);
    assert_eq!(first_call, Upstream::A);
    let reply = classify_reply(Some(201), "done".to_string());
    let (state, start_now) =
        dispatch_step(state, DispatchEvent::Finished { upstream: Upstream::A, outcome: reply });
    assert_eq!(start_now, None);
    assert!(matches!(
        state,
        DispatchState::Settled { outcome: DispatchOutcome::Success { upstream: Upstream::A, .. } }
    ));
}

#[test]
fn dispatch_routes_around_an_open_breaker() {
    // A's breaker is open, B's closed: only B is called, and A's breaker
    // sees no further observation for the whole dispatch.
    let mut strategy = RouteStrategy::new();
    let mut a = open_breaker(500);
    let mut b = closed_breaker();
    let a_before = a;
    let (state, first_call) = start_dispatch(&mut strategy, &a, &b, 510);
    assert_eq!(first_call, Upstream::B);
    assert_eq!(
        state,
        DispatchState::PrimaryFlight { primary: Upstream::B, secondary: Upstream::A }
    );
    let reply = classify_reply(Some(200), "ok".to_string());
    let (state, _) =
        dispatch_step(state, DispatchEvent::Finished { upstream: Upstream::B, outcome: reply });
    let outcome = match state {
        DispatchState::Settled { outcome } => outcome,
        other => panic!("dispatch did not settle: {:?}", other),
    };
    let mut stats = StatsAggregator::new();
    report_outcome(&mut a, &mut b, &mut stats, &outcome, 100, 520);
    assert_eq!(a, a_before);
    assert_eq!((b.fails, b.total), (0, 1));
    assert_eq!(stats.b.total_requests, 1);
    assert_eq!(stats.b.total_amount, 100);
    assert_eq!(stats.a.total_requests, 0);
}

#[test]
fn dispatch_both_open_skips_primary_and_counts_the_skip() {
    let mut strategy = RouteStrategy::new();
    let a = open_breaker(500);
    let b = open_breaker(500);
    // Tick 0 would put A first, but A's breaker is open: the dispatch skips
    // it, notes the skip on the fairness counter, and calls only B.
    let (state, first_call) = start_dispatch(&mut strategy, &a, &b, 510);
    assert_eq!(first_call, Upstream::B);
    assert_eq!(state, DispatchState::SoleFlight { secondary: Upstream::B });
    assert_eq!(strategy.skew, 2);
    let reply = classify_reply(Some(503), String::new());
    let (state, start_now) =
        dispatch_step(state, DispatchEvent::Finished { upstream: Upstream::B, outcome: reply });
    assert_eq!(start_now, None);
    assert!(matches!(
        state,
        DispatchState::Settled {
            outcome: DispatchOutcome::Failure { upstream: Some(Upstream::B), status: 503, .. }
        }
    ));
}

#[test]
fn dispatch_race_can_settle_on_primary() {
    let state = DispatchState::RaceFlight { primary: Upstream::A, secondary: Upstream::B };
    let reply = classify_reply(Some(200), "fast".to_string());
    let (state, _) =
        dispatch_step(state, DispatchEvent::Finished { upstream: Upstream::A, outcome: reply });
    assert!(matches!(
        state,
        DispatchState::Settled { outcome: DispatchOutcome::Success { upstream: Upstream::A, .. } }
    ));
}

#[test]
fn dispatch_aborted_settles_unattributed_and_feeds_nothing() {
    let mut strategy = RouteStrategy::new();
    let mut a = closed_breaker();
    let mut b = closed_breaker();
    let (state, _) = start_dispatch(&mut strategy, &a, &b, 1_000);
    let (state, start_now) = dispatch_step(state, DispatchEvent::Aborted);
    assert_eq!(start_now, None);
    let outcome = match state {
        DispatchState::Settled { outcome } => outcome,
        other => panic!("dispatch did not settle: {:?}", other),
    };
    match &outcome {
        DispatchOutcome::Failure { upstream, status, .. } => {
            assert_eq!(*upstream, None);
            assert_eq!(*status, 500);
        }
        other => panic!("expected a failure outcome: {:?}", other),
    }
    let a_before = a;
    let b_before = b;
    let mut stats = StatsAggregator::new();
    report_outcome(&mut a, &mut b, &mut stats, &outcome, 100, 1_100);
    assert_eq!(a, a_before);
    assert_eq!(b, b_before);
    assert_eq!(stats, StatsAggregator::new());
}

#[test]
fn dispatch_failure_feeds_only_the_answering_breaker() {
    let mut a = closed_breaker();
    let mut b = closed_breaker();
    let mut stats = StatsAggregator::new();
    let outcome = DispatchOutcome::Failure {
        upstream: Some(Upstream::B),
        status: 502,
        message: "upstream transport error".to_string(),
    };
    report_outcome(&mut a, &mut b, &mut stats, &outcome, 55, 2_000);
    assert_eq!((a.fails, a.total), (0, 0));
    assert_eq!((b.fails, b.total), (1, 1));
    // A failed dispatch is not counted in the statistics.
    assert_eq!(stats, StatsAggregator::new());
}

#[test]
fn dispatch_success_feeds_breaker_and_stats_once() {
    let mut a = closed_breaker();
    let mut b = closed_breaker();
    let mut stats = StatsAggregator::new();
    let outcome =
        DispatchOutcome::Success { upstream: Upstream::A, response: "ok".to_string() };
    report_outcome(&mut a, &mut b, &mut stats, &outcome, 250, 2_000);
    assert_eq!((a.fails, a.total), (0, 1));
    assert_eq!((b.fails, b.total), (0, 0));
    assert_eq!(stats.a.total_requests, 1);
    assert_eq!(stats.a.total_amount, 250);
    assert_eq!(stats.b.total_requests, 0);
}

#[test]
fn classify_success_statuses_keep_the_body() {
    for status in [200u16, 201, 250, 299] {
        let r = classify_reply(Some(status), "body".to_string());
        assert_eq!(r, CallOutcome::Success { response: "body".to_string() });
    }
}

#[test]
fn classify_error_statuses_keep_the_code() {
    for status in [199u16, 300, 404, 500, 503] {
        let r = classify_reply(Some(status), String::new());
        match r {
            CallOutcome::Failure { status: s, .. } => assert_eq!(s, status),
            other => panic!("expected a failure: {:?}", other),
        }
    }
}

#[test]
fn classify_transport_error_is_bad_gateway() {
    let r = classify_reply(None, String::new());
    match r {
        CallOutcome::Failure { status, message } => {
            assert_eq!(status, 502);
            assert_eq!(message, "upstream transport error");
        }
        other => panic!("expected a failure: {:?}", other),
    }
}
