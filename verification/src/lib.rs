//! Orchestration core of a message-hub telemetry client, plus the pure parts
//! of the HTTP verification client used to read published data back.
//!
//! The crate holds the decision logic only: a periodic publisher that is
//! bounded by an optional message limit, a receiver that drains an event
//! channel, a shutdown coordinator that races an operator interrupt against
//! the connection's own `run` activity, and the response handling of the
//! verification API. All I/O (the SDK connection, HTTP, signals, timers)
//! stays with the caller, which feeds events in and carries actions out.

pub mod api;
pub mod publisher;
pub mod receiver;
pub mod shutdown;
pub mod text;
