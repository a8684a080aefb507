//! A managed capture session for screen video and system audio.
//!
//! The native capture pipeline delivers timestamped media sample buffers
//! asynchronously.  This crate verifies the session core that sits on top of
//! that pipeline: the lifecycle state machine (created, capturing, stopped),
//! the dispatch of heterogeneous sample buffers to registered consumers in
//! delivery order, the at-most-once relay of a session-fatal error, and the
//! exactly-once release of the owned native handle.  The native calls
//! themselves are performed by an unverified embedding layer, which feeds
//! their outcomes into the verified session.

pub mod config;
pub mod handle;
pub mod registry;
pub mod relay;
pub mod sample;
pub mod stream;
