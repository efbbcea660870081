//! A lightweight execution-tracing telemetry emitter.
//!
//! The library holds the verified core of a call-tracing telemetry pipeline:
//! a write-once configuration and sender lifecycle, the decision logic that
//! turns a send request into a single outbound datagram, and the hot-path
//! filter that formats one record per matching function-entry event. All
//! socket and host-runtime plumbing lives outside the library; the functions
//! here work on plain values and describe the datagram that must be emitted,
//! if any.

pub mod errors;
pub mod text;
pub mod tracer;
pub mod hook;
pub mod probe;
