//! Lifecycle of a QUIC connection (active, closing, draining, terminated)
//! and the size-limited datagram flow that shares its error broadcast.
//!
//! Everything here is a deterministic state machine: timers, tasks and
//! socket I/O are driven by the caller, which performs the actions that the
//! transitions hand back.
pub mod error;
pub mod datagram;
pub mod state;
pub mod connection;
pub mod laws;
