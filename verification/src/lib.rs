//! Live presence view over a service's log stream.
//!
//! A streaming parser turns connect/disconnect log lines into typed presence
//! events, a presence store keeps the current online/offline state per named
//! client, and a renderer turns a snapshot of that store into a stable,
//! human-readable status report. All I/O (tailing the log, serving the
//! report over HTTP) lives outside this library.

pub mod config;
pub mod http;
pub mod journal;
pub mod laws;
pub mod log;
pub mod render;
pub mod text;
pub mod users;
