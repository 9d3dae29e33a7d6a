//! Verified core of a small HTTP-to-GPIO bridge.
//!
//! The library owns the logic with real invariants: a cache of claimed
//! line handles keyed by (chip, pin, direction), the command dispatcher
//! that resolves a handle through the cache and interprets hardware
//! outcomes, the request screening done before any dispatch work, and
//! the mapping of dispatch results to HTTP-style replies.
//!
//! Hardware access (the GPIO character device) and the HTTP server are
//! unverified collaborators: they perform the actions this library
//! decides on and hand the outcomes back as plain values.

pub mod cache;
pub mod command;
pub mod dispatch;
pub mod edge;
pub mod errors;
pub mod key;
pub mod laws;
pub mod reply;
