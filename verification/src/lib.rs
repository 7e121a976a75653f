//! A TCP port-scan engine: a service catalog mapping well-known port numbers
//! to service labels, and a sweep state machine that classifies per-port probe
//! results, aggregates them, and reports a summary.
//!
//! The engine itself performs no networking: a driver resolves the target,
//! attempts one handshake per port, and feeds each handshake's result to the
//! sweep, which produces the per-port outcomes and the final statistics.

pub mod catalog;
pub mod engine;
