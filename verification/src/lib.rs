//! Media session abstraction layer.
//!
//! Observes the operating system's "now playing" media session and offers a
//! small remote-control surface (toggle play/pause, next, previous) to a host
//! application. The core here is platform-independent: each platform binding
//! hands in the raw values it read from its native session API as plain data,
//! and this crate normalizes them into one canonical [`snapshot::MediaSnapshot`]
//! record and decides which control calls may be issued.

pub mod dispatch;
pub mod mpris;
pub mod provider;
pub mod smtc;
pub mod snapshot;
