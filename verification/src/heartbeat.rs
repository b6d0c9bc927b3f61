//! Liveness policy and the phases of a connection's heartbeat monitor.

use vstd::prelude::*;

verus! {

/// Default period between two liveness probes, in time units.
pub const HEARTBEAT_INTERVAL: u64 = 5;

/// Default silence after which a peer counts as dead, in time units.
pub const CLIENT_TIMEOUT: u64 = 10;

/// How often a connection probes its peer and how long it waits for an answer.
#[derive(Clone, Copy, Debug, PartialEq, Eq, Structural)]
pub struct HeartbeatPolicy {
    /// Period between two probes.
    pub interval: u64,
    /// Longest tolerated time since the last acknowledgment.
    pub timeout: u64,
}

impl HeartbeatPolicy {
    /// A policy with the given period and timeout.
    pub fn new(interval: u64, timeout: u64) -> (p: Self)
        ensures
            p == (HeartbeatPolicy { interval, timeout }),
    {
        HeartbeatPolicy { interval, timeout }
    }

    /// The peer acknowledged last at `last_ack` and at `now` that is longer
    /// ago than the timeout allows.
    pub open spec fn expired(self, last_ack: u64, now: u64) -> bool {
        now - last_ack > self.timeout
    }

    /// Whether the peer has been silent for longer than the timeout.
    pub fn is_expired(&self, last_ack: u64, now: u64) -> (b: bool)
        ensures
            b == self.expired(last_ack, now),
    {
        now > last_ack && now - last_ack > self.timeout
    }
}

impl Default for HeartbeatPolicy {
    /// Probe every `HEARTBEAT_INTERVAL`, give up after `CLIENT_TIMEOUT`.
    fn default() -> (p: Self)
        ensures
            p == (HeartbeatPolicy { interval: HEARTBEAT_INTERVAL, timeout: CLIENT_TIMEOUT }),
    {
        HeartbeatPolicy { interval: HEARTBEAT_INTERVAL, timeout: CLIENT_TIMEOUT }
    }
}

/// Where a connection stands in its life.
///
/// `Active` leads to `TimedOut` when the peer stays silent, and to `Closed`
/// when the peer closes, the transport fails or the session is stopped.
/// `TimedOut` leads to `Closed`. Nothing leads out of `Closed`.
#[derive(Clone, Copy, Debug, PartialEq, Eq, Structural)]
pub enum Phase {
    /// The session is live.
    Active,
    /// The peer stayed silent for too long; the session is stopping.
    TimedOut,
    /// The session has ended and has given its membership up.
    Closed,
}

} // verus!
