//! The registry: sole owner of the membership set and sole source of
//! presence broadcasts.

use crate::event::{ConnectionId, Event, Request};
use std::collections::HashSet;
use vstd::prelude::*;
use vstd::std_specs::iter::IteratorSpec;

verus! {

/// The members once `request` has been served from the set `members`.
pub open spec fn members_after(members: Set<ConnectionId>, request: Request) -> Set<ConnectionId> {
    match request {
        Request::Join(id) => members.insert(id),
        Request::Leave(id) => members.remove(id),
    }
}

/// The members that are owed the announcement of `request` when it is served
/// from the set `members`.
///
/// A join is announced to everyone who was a member before it, never to the
/// joiner. A leave is announced to everyone who remains; the leave of a
/// connection that is not a member is announced to nobody.
pub open spec fn audience(members: Set<ConnectionId>, request: Request) -> Set<ConnectionId> {
    match request {
        Request::Join(id) => members.remove(id),
        Request::Leave(id) => if members.contains(id) {
            members.remove(id)
        } else {
            Set::empty()
        },
    }
}

/// What serving one request calls for: the event to announce, the members
/// to announce it to, and the membership count afterwards.
///
/// The registry sends nothing itself. Its owner hands `event` to each of
/// `recipients` without waiting for any of them, and drops what cannot be
/// delivered.
#[derive(Debug)]
pub struct Broadcast {
    /// The event to deliver.
    pub event: Event,
    /// Every member that is owed the event, each once, in no particular order.
    pub recipients: Vec<ConnectionId>,
    /// Number of members once the request has been served.
    pub members: usize,
}

impl Broadcast {
    /// This is the outcome of serving `request` from the set `before`.
    pub open spec fn serves(&self, before: Set<ConnectionId>, request: Request) -> bool {
        &&& self.event == request.announces()
        &&& self.recipients@.no_duplicates()
        &&& self.recipients@.to_set() == audience(before, request)
        &&& self.members == members_after(before, request).len()
    }
}

/// The set of connections that have joined and not yet left.
pub struct Registry {
    sockets: HashSet<ConnectionId>,
}

impl Registry {
    /// The current members.
    pub closed spec fn view(&self) -> Set<ConnectionId> {
        self.sockets@
    }

    /// The members are finitely many.
    #[verifier::type_invariant]
    spec fn well_formed(self) -> bool {
        self.sockets@.finite()
    }

    /// A registry without members.
    pub fn new() -> (r: Self)
        ensures
            r@ == Set::<ConnectionId>::empty(),
            r@.finite(),
    {
        Registry { sockets: HashSet::new() }
    }

    /// Number of members.
    pub fn len(&self) -> (n: usize)
        ensures
            self@.finite(),
            n == self@.len(),
    {
        proof {
            use_type_invariant(self);
        }
        self.sockets.len()
    }

    /// Whether there is no member.
    pub fn is_empty(&self) -> (b: bool)
        ensures
            b == self@.is_empty(),
    {
        self.sockets.is_empty()
    }

    /// Whether `id` is a member.
    pub fn contains(&self, id: ConnectionId) -> (b: bool)
        ensures
            b == self@.contains(id),
    {
        self.sockets.contains(&id)
    }

    /// Admits `id`: `PeerJoined` is owed to everyone who was a member before,
    /// never to `id` itself, and `id` is a member from now on.
    pub fn join(&mut self, id: ConnectionId) -> (out: Broadcast)
        ensures
            final(self)@ == old(self)@.insert(id),
            final(self)@.finite(),
            !out.recipients@.contains(id),
            out.serves(old(self)@, Request::Join(id)),
    {
        let recipients = self.peers_of(id);
        assert(!recipients@.contains(id)) by {
            if recipients@.contains(id) {
                assert(recipients@.to_set().contains(id));
            }
        }
        self.insert(id);
        Broadcast { event: Event::PeerJoined, recipients, members: self.len() }
    }

    /// Dismisses `id`: it is a member no longer, and `PeerLeft` is owed to
    /// everyone who remains. Where `id` was no member, nothing changes and
    /// nobody is owed anything.
    pub fn leave(&mut self, id: ConnectionId) -> (out: Broadcast)
        ensures
            final(self)@ == old(self)@.remove(id),
            final(self)@.finite(),
            out.serves(old(self)@, Request::Leave(id)),
    {
        let was_member = self.remove(id);
        let recipients = if was_member {
            self.peers_of(id)
        } else {
            Vec::new()
        };
        proof {
            assert(self@.remove(id) =~= old(self)@.remove(id));
            if !was_member {
                assert(recipients@.to_set() =~= Set::<ConnectionId>::empty());
            }
        }
        Broadcast { event: Event::PeerLeft, recipients, members: self.len() }
    }

    /// Serves one request, a join or a leave.
    pub fn handle(&mut self, request: Request) -> (out: Broadcast)
        ensures
            final(self)@ == members_after(old(self)@, request),
            final(self)@.finite(),
            out.serves(old(self)@, request),
    {
        match request {
            Request::Join(id) => self.join(id),
            Request::Leave(id) => self.leave(id),
        }
    }

    /// Makes `id` a member.
    ///
    /// The set is moved out of the registry while it changes, so that the
    /// registry is well formed whenever control may leave this function.
    fn insert(&mut self, id: ConnectionId)
        ensures
            final(self)@ == old(self)@.insert(id),
    {
        proof {
            use_type_invariant(&*self);
        }
        let mut sockets: HashSet<ConnectionId> = HashSet::new();
        std::mem::swap(&mut self.sockets, &mut sockets);
        sockets.insert(id);
        std::mem::swap(&mut self.sockets, &mut sockets);
    }

    /// Takes `id` off the members and says whether it was one.
    ///
    /// The set is moved out of the registry while it changes, as in `insert`.
    fn remove(&mut self, id: ConnectionId) -> (was_member: bool)
        ensures
            final(self)@ == old(self)@.remove(id),
            was_member == old(self)@.contains(id),
    {
        proof {
            use_type_invariant(&*self);
        }
        let mut sockets: HashSet<ConnectionId> = HashSet::new();
        std::mem::swap(&mut self.sockets, &mut sockets);
        let was_member = sockets.remove(&id);
        std::mem::swap(&mut self.sockets, &mut sockets);
        was_member
    }

    /// Every member but `id`, each listed once.
    pub fn peers_of(&self, id: ConnectionId) -> (peers: Vec<ConnectionId>)
        ensures
            peers@.no_duplicates(),
            peers@.to_set() == self@.remove(id),
    {
        let mut peers: Vec<ConnectionId> = Vec::new();
        let ghost keys: Seq<ConnectionId> = self.sockets.iter().remaining().unref();
        for member in iter: self.sockets.iter()
            invariant
                iter.seq().unref() == keys,
                keys.no_duplicates(),
                keys.to_set() == self.sockets@,
                peers@.no_duplicates(),
                forall|j: int|
                    0 <= j < peers@.len() ==> peers@[j] != id && exists|i: int|
                        0 <= i < iter.index() && keys[i] == #[trigger] peers@[j],
                forall|i: int|
                    0 <= i < iter.index() && keys[i] != id ==> peers@.contains(#[trigger] keys[i]),
        {
            let ghost before = peers@;
            if *member != id {
                peers.push(*member);
                proof {
                    assert(peers@[before.len() as int] == *member);
                    assert forall|i: int|
                        0 <= i < iter.index() + 1 && keys[i] != id implies peers@.contains(
                        #[trigger] keys[i],
                    ) by {
                        if i < iter.index() {
                            let j = choose|j: int| 0 <= j < before.len() && before[j] == keys[i];
                            assert(peers@[j] == keys[i]);
                        }
                    }
                }
            }
        }
        proof {
            assert forall|k: ConnectionId| peers@.to_set().contains(k) implies self@.remove(
                id,
            ).contains(k) by {
                let j = choose|j: int| 0 <= j < peers@.len() && peers@[j] == k;
                let i = choose|i: int| 0 <= i < keys.len() && keys[i] == peers@[j];
                assert(keys.to_set().contains(keys[i]));
            }
            assert forall|k: ConnectionId| self@.remove(id).contains(k) implies peers@.to_set().contains(
                k,
            ) by {
                assert(keys.to_set().contains(k));
            }
            assert(peers@.to_set() =~= self@.remove(id));
        }
        peers
    }
}

} // verus!
