//! Resilience layer for a long-lived, bidirectional, message-oriented
//! connection. The caller wraps a raw duplex channel with composable
//! decorators (periodic keepalive, transparent reconnection with handover,
//! tracing), each expressed as an explicit state machine with one driving
//! step, plus the lazy numeric sequence generators that backoff policies
//! are built from.

pub mod backpressure;
pub mod decimal;
pub mod duration;
pub mod heartbeat;
pub mod json;
pub mod message;
pub mod next;
pub mod parse;
pub mod refreshing;
pub mod result;
pub mod runtime_flavor;
pub mod send;
pub mod sequence;
pub mod time;
pub mod tracing;
pub mod widths;
