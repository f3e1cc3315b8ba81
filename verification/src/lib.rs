//! Breaker-aware hedged dispatch engine for a two-upstream payment gateway.
//!
//! The crate verifies the decision core of the gateway: a failure-rate
//! circuit breaker per upstream, a breaker-aware routing strategy with a
//! fairness counter, the hedged dispatch state machine that races a primary
//! call against a delayed secondary call, and the per-upstream statistics
//! aggregator. Everything time- or I/O-dependent is passed in as plain
//! values (clock readings in milliseconds, observed HTTP status codes), so
//! every function here is a pure, verified state transition; the transport
//! layer around the crate performs the actual calls and feeds the results
//! back in.

pub mod breaker;
pub mod config;
pub mod dispatch;
pub mod stats;
pub mod strategy;
pub mod transacao;
pub mod upstream;
