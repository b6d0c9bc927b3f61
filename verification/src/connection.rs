//! One peer session: what it does on each input, as a state machine.

use crate::event::{ConnectionId, Event, Request};
use crate::heartbeat::{HeartbeatPolicy, Phase};
use vstd::prelude::*;

verus! {

/// A frame received from the remote peer.
#[derive(Debug, PartialEq, Eq)]
pub enum Frame {
    /// Text data; the protocol defines no meaning for it.
    Text,
    /// Binary data; the protocol defines no meaning for it.
    Binary,
    /// A probe from the peer, with its payload.
    Ping(String),
    /// The peer's acknowledgment of a probe.
    Pong,
    /// The peer closes the session.
    Close,
    /// Anything else, malformed frames included.
    Unknown,
}

/// Something that happens to a connection.
#[derive(Debug, PartialEq, Eq)]
pub enum Input {
    /// The heartbeat timer fired at the given time.
    Tick(u64),
    /// The peer sent a frame, which arrived at the given time.
    Frame(Frame, u64),
    /// The transport failed.
    Error,
    /// The registry announces a presence event.
    Deliver(Event),
    /// The session is being torn down.
    Stopped,
}

/// Something that the owner of a connection has to do on its behalf.
#[derive(Debug, PartialEq, Eq)]
pub enum Action {
    /// Start the heartbeat timer with this period.
    Schedule(u64),
    /// Hand this request to the registry.
    Notify(Request),
    /// Send a liveness probe to the peer.
    Ping,
    /// Answer the peer's probe with the probe's payload.
    Pong(String),
    /// Send the text of this event to the peer as one frame.
    Forward(Event),
    /// Stop the session: cancel the timer and close the channel.
    Stop,
}

/// The observable state of a connection.
#[derive(Clone, Copy, Debug, PartialEq, Eq, Structural)]
pub struct ConnectionState {
    /// The connection's identity.
    pub id: ConnectionId,
    /// When the peer last acknowledged a probe.
    pub last_ack: u64,
    /// Where the session stands in its life.
    pub phase: Phase,
    /// The liveness policy in force.
    pub policy: HeartbeatPolicy,
}

impl ConnectionState {
    /// The state of a connection that starts at `now`.
    pub open spec fn started(id: ConnectionId, now: u64, policy: HeartbeatPolicy) -> Self {
        ConnectionState { id, last_ack: now, phase: Phase::Active, policy }
    }

    /// This state, in another phase.
    pub open spec fn in_phase(self, phase: Phase) -> Self {
        ConnectionState { phase, ..self }
    }

    /// This state, with an acknowledgment recorded at `now`.
    pub open spec fn acknowledged(self, now: u64) -> Self {
        ConnectionState { last_ack: now, ..self }
    }
}

/// What a connection owes on its start: a running heartbeat timer and a
/// join request to the registry.
pub open spec fn on_start(id: ConnectionId, policy: HeartbeatPolicy) -> Seq<Action> {
    seq![Action::Schedule(policy.interval), Action::Notify(Request::Join(id))]
}

/// The state that follows `s` on `input`, and the actions that the connection
/// owes for it, in order.
///
/// A closed session ignores everything. A session that has timed out only
/// waits to be torn down. A live session probes on each tick until the peer
/// has been silent for longer than the timeout, echoes the peer's probes,
/// records the peer's acknowledgments, forwards presence events and ignores
/// every other frame. Whenever a session becomes closed it asks the registry,
/// once, to take it off the membership.
pub open spec fn react(s: ConnectionState, input: Input) -> (ConnectionState, Seq<Action>) {
    let leave = Action::Notify(Request::Leave(s.id));
    match s.phase {
        Phase::Closed => (s, seq![]),
        Phase::TimedOut => match input {
            Input::Stopped => (s.in_phase(Phase::Closed), seq![leave]),
            _ => (s, seq![]),
        },
        Phase::Active => match input {
            Input::Tick(now) => if s.policy.expired(s.last_ack, now) {
                (s.in_phase(Phase::TimedOut), seq![Action::Stop])
            } else {
                (s, seq![Action::Ping])
            },
            Input::Frame(Frame::Ping(payload), _) => (s, seq![Action::Pong(payload)]),
            Input::Frame(Frame::Pong, now) => (s.acknowledged(now), seq![]),
            Input::Frame(Frame::Close, _) => (s.in_phase(Phase::Closed), seq![leave, Action::Stop]),
            Input::Frame(_, _) => (s, seq![]),
            Input::Error => (s.in_phase(Phase::Closed), seq![leave, Action::Stop]),
            Input::Deliver(event) => (s, seq![Action::Forward(event)]),
            Input::Stopped => (s.in_phase(Phase::Closed), seq![leave]),
        },
    }
}

/// One live peer session.
pub struct Connection {
    id: ConnectionId,
    last_ack: u64,
    phase: Phase,
    policy: HeartbeatPolicy,
}

impl Connection {
    /// The connection's observable state.
    pub closed spec fn view(&self) -> ConnectionState {
        ConnectionState {
            id: self.id,
            last_ack: self.last_ack,
            phase: self.phase,
            policy: self.policy,
        }
    }

    /// Starts a session at `now`: the peer counts as heard at `now`, the
    /// heartbeat timer is to be started and the registry to be told.
    pub fn start(id: ConnectionId, now: u64, policy: HeartbeatPolicy) -> (r: (Self, Vec<Action>))
        ensures
            r.0@ == ConnectionState::started(id, now, policy),
            r.1@ == on_start(id, policy),
    {
        let mut actions: Vec<Action> = Vec::new();
        actions.push(Action::Schedule(policy.interval));
        actions.push(Action::Notify(Request::Join(id)));
        (Connection { id, last_ack: now, phase: Phase::Active, policy }, actions)
    }

    /// The heartbeat timer fired at `now`: a live session probes its peer,
    /// unless the peer has been silent for too long; then it stops.
    pub fn tick(&mut self, now: u64) -> (actions: Vec<Action>)
        ensures
            (final(self)@, actions@) == react(old(self)@, Input::Tick(now)),
    {
        let mut actions: Vec<Action> = Vec::new();
        match self.phase {
            Phase::Active => {
                if self.policy.is_expired(self.last_ack, now) {
                    self.phase = Phase::TimedOut;
                    actions.push(Action::Stop);
                } else {
                    actions.push(Action::Ping);
                }
            },
            _ => {},
        }
        actions
    }

    /// The peer sent `frame`, which arrived at `now`: a live session echoes a
    /// probe, records an acknowledgment, ends on a close and ignores the rest.
    pub fn receive(&mut self, frame: Frame, now: u64) -> (actions: Vec<Action>)
        ensures
            (final(self)@, actions@) == react(old(self)@, Input::Frame(frame, now)),
    {
        match self.phase {
            Phase::Active => match frame {
                Frame::Ping(payload) => {
                    let mut actions: Vec<Action> = Vec::new();
                    actions.push(Action::Pong(payload));
                    actions
                },
                Frame::Pong => {
                    self.last_ack = now;
                    Vec::new()
                },
                Frame::Close => self.close(true),
                _ => Vec::new(),
            },
            _ => Vec::new(),
        }
    }

    /// The registry announces `event`: a live session forwards its text to
    /// the peer; a session that is no longer live drops it silently.
    pub fn deliver(&self, event: Event) -> (actions: Vec<Action>)
        ensures
            (self@, actions@) == react(self@, Input::Deliver(event)),
    {
        let mut actions: Vec<Action> = Vec::new();
        match self.phase {
            Phase::Active => {
                actions.push(Action::Forward(event));
            },
            _ => {},
        }
        actions
    }

    /// The transport failed: a live session ends.
    pub fn fail(&mut self) -> (actions: Vec<Action>)
        ensures
            (final(self)@, actions@) == react(old(self)@, Input::Error),
    {
        match self.phase {
            Phase::Active => self.close(true),
            _ => Vec::new(),
        }
    }

    /// The session is being torn down: unless it has done so already, it
    /// gives its membership up.
    pub fn stop(&mut self) -> (actions: Vec<Action>)
        ensures
            (final(self)@, actions@) == react(old(self)@, Input::Stopped),
    {
        match self.phase {
            Phase::Closed => Vec::new(),
            _ => self.close(false),
        }
    }

    /// Serves one input, whatever its kind.
    pub fn step(&mut self, input: Input) -> (actions: Vec<Action>)
        ensures
            (final(self)@, actions@) == react(old(self)@, input),
    {
        match input {
            Input::Tick(now) => self.tick(now),
            Input::Frame(frame, now) => self.receive(frame, now),
            Input::Error => self.fail(),
            Input::Deliver(event) => self.deliver(event),
            Input::Stopped => self.stop(),
        }
    }

    /// Enters `Closed` and tells the registry; with `halt`, also asks for
    /// the session to be stopped.
    fn close(&mut self, halt: bool) -> (actions: Vec<Action>)
        requires
            old(self)@.phase != Phase::Closed,
        ensures
            final(self)@ == old(self)@.in_phase(Phase::Closed),
            actions@ == if halt {
                seq![Action::Notify(Request::Leave(old(self)@.id)), Action::Stop]
            } else {
                seq![Action::Notify(Request::Leave(old(self)@.id))]
            },
    {
        self.phase = Phase::Closed;
        let mut actions: Vec<Action> = Vec::new();
        actions.push(Action::Notify(Request::Leave(self.id)));
        if halt {
            actions.push(Action::Stop);
        }
        actions
    }

    /// The connection's identity.
    pub fn id(&self) -> (id: ConnectionId)
        ensures
            id == self@.id,
    {
        self.id
    }

    /// Where the session stands in its life.
    pub fn phase(&self) -> (phase: Phase)
        ensures
            phase == self@.phase,
    {
        self.phase
    }

    /// When the peer last acknowledged a probe.
    pub fn last_ack(&self) -> (t: u64)
        ensures
            t == self@.last_ack,
    {
        self.last_ack
    }

    /// The liveness policy in force.
    pub fn policy(&self) -> (policy: HeartbeatPolicy)
        ensures
            policy == self@.policy,
    {
        self.policy
    }
}

} // verus!
