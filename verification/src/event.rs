//! Identities, presence events and the membership requests that cause them.

use vstd::prelude::*;

verus! {

/// Opaque handle of a connection: stable for its lifetime, unique in the process.
pub type ConnectionId = u64;

/// A presence notification fanned out by the registry.
#[derive(Clone, Copy, Debug, PartialEq, Eq, Structural)]
pub enum Event {
    /// A new peer has joined.
    PeerJoined,
    /// A peer has left.
    PeerLeft,
}

impl Event {
    /// The text that a peer sees on the wire for this event.
    pub open spec fn payload(self) -> Seq<char> {
        match self {
            Event::PeerJoined => "Someone connected"@,
            Event::PeerLeft => "Someone disconnected"@,
        }
    }

    /// The text frame that announces this event to a remote peer.
    pub fn text(self) -> (t: &'static str)
        ensures
            t@ == self.payload(),
    {
        match self {
            Event::PeerJoined => "Someone connected",
            Event::PeerLeft => "Someone disconnected",
        }
    }
}

/// A membership change that a connection asks of the registry.
#[derive(Clone, Copy, Debug, PartialEq, Eq, Structural)]
pub enum Request {
    /// The connection has started and wants to be a member.
    Join(ConnectionId),
    /// The connection has stopped and gives its membership up.
    Leave(ConnectionId),
}

impl Request {
    /// The connection that the request is about.
    pub open spec fn subject(self) -> ConnectionId {
        match self {
            Request::Join(id) => id,
            Request::Leave(id) => id,
        }
    }

    /// The event that the registry announces when it serves the request.
    pub open spec fn announces(self) -> Event {
        match self {
            Request::Join(_) => Event::PeerJoined,
            Request::Leave(_) => Event::PeerLeft,
        }
    }
}

} // verus!
