//! Verified core of a chat client's session bridge.
//!
//! The library owns the decision logic of one client session: resolving the
//! address a user typed, classifying the outcomes of the connection attempt,
//! holding the single shared connection slot, turning protocol events into an
//! ordered stream of UI notifications, and building outbound messages. All
//! transport I/O, threading and presentation stay outside, behind plain-value
//! interfaces.

pub mod commands;
pub mod connect;
pub mod handle;
pub mod notify;
pub mod relay;
