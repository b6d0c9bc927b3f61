//! Presence broadcasting core: a registry of live connections that announces
//! every arrival and departure to the other members, and the per-connection
//! heartbeat state machine that detects dead peers.
//!
//! The crate performs no I/O and keeps no clock. Each entry point maps a
//! state and an input to the next state and to what the caller has to carry
//! out: frames to send, requests to pass on, members to notify.
//!
//! - [`event`]: identities, presence events, membership requests.
//! - [`registry`]: the membership set and who is told of each change.
//! - [`heartbeat`]: the liveness policy and the phases of a session.
//! - [`connection`]: one session's reaction to ticks, frames and events.
//! - [`history`]: what holds of the registry over sequences of requests.
//! - [`lifecycle`]: what holds of a connection over sequences of inputs.

pub mod connection;
pub mod event;
pub mod heartbeat;
pub mod history;
pub mod lifecycle;
pub mod registry;
