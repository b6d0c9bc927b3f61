//! What holds of the registry over whole sequences of requests.

use crate::event::{ConnectionId, Request};
use crate::registry::{audience, members_after};
use vstd::prelude::*;

verus! {

/// The members once `requests` have been served in order, starting from
/// the set `members`.
pub open spec fn replay(members: Set<ConnectionId>, requests: Seq<Request>) -> Set<ConnectionId>
    decreases requests.len(),
{
    if requests.len() == 0 {
        members
    } else {
        members_after(replay(members, requests.drop_last()), requests.last())
    }
}

/// Somewhere in `requests` the connection `id` joins, and it does not leave
/// afterwards.
pub open spec fn joined_and_not_left(requests: Seq<Request>, id: ConnectionId) -> bool {
    exists|i: int|
        0 <= i < requests.len() && #[trigger] requests[i] == Request::Join(id) && forall|j: int|
            i < j < requests.len() ==> #[trigger] requests[j] != Request::Leave(id)
}

/// The members that are owed the announcement of the request at position
/// `k`, when a registry that starts empty serves `requests` in order.
pub open spec fn audience_at(requests: Seq<Request>, k: int) -> Set<ConnectionId> {
    audience(replay(Set::empty(), requests.take(k)), requests[k])
}

/// Membership is accurate: after any sequence of requests, served from an
/// empty registry, the members are exactly the connections that have joined
/// and not left since.
pub proof fn lemma_membership_accurate(requests: Seq<Request>, id: ConnectionId)
    ensures
        replay(Set::empty(), requests).contains(id) <==> joined_and_not_left(requests, id),
    decreases requests.len(),
{
    if requests.len() > 0 {
        let earlier = requests.drop_last();
        let last = requests.last();
        lemma_membership_accurate(earlier, id);
        if last != Request::Join(id) && last != Request::Leave(id) {
            // The last request is about someone else: `id` is a member after
            // it exactly if it was one before.
            if joined_and_not_left(earlier, id) {
                let i = choose|i: int|
                    0 <= i < earlier.len() && #[trigger] earlier[i] == Request::Join(id)
                        && forall|j: int|
                        i < j < earlier.len() ==> #[trigger] earlier[j] != Request::Leave(id);
                assert forall|j: int| i < j < requests.len() implies #[trigger] requests[j]
                    != Request::Leave(id) by {
                    if j < earlier.len() {
                        assert(earlier[j] != Request::Leave(id));
                    }
                }
            }
            if joined_and_not_left(requests, id) {
                let i = choose|i: int|
                    0 <= i < requests.len() && #[trigger] requests[i] == Request::Join(id)
                        && forall|j: int|
                        i < j < requests.len() ==> #[trigger] requests[j] != Request::Leave(id);
                assert(earlier[i] == Request::Join(id));
            }
        }
    }
}

/// The membership is always a finite set.
pub proof fn lemma_replay_finite(members: Set<ConnectionId>, requests: Seq<Request>)
    requires
        members.finite(),
    ensures
        replay(members, requests).finite(),
    decreases requests.len(),
{
    if requests.len() > 0 {
        lemma_replay_finite(members, requests.drop_last());
    }
}

/// No self-announcement: whatever the members are, a join is never
/// announced to the connection that joins.
pub proof fn lemma_no_self_announcement(members: Set<ConnectionId>, id: ConnectionId)
    ensures
        !audience(members, Request::Join(id)).contains(id),
{
}

/// Announcements follow the order of service: the request at position `k`
/// is announced to `peer` exactly if `peer` is not its subject, has joined
/// before position `k` and has not left since, and, for a leave, the subject
/// was itself a member.
///
/// So a connection hears of no join that was served before its own, and of
/// none after its own leave.
pub proof fn lemma_announced_in_order(requests: Seq<Request>, k: int, peer: ConnectionId)
    requires
        0 <= k < requests.len(),
    ensures
        audience_at(requests, k).contains(peer) <==> {
            &&& peer != requests[k].subject()
            &&& joined_and_not_left(requests.take(k), peer)
            &&& requests[k] is Leave ==> joined_and_not_left(
                requests.take(k),
                requests[k].subject(),
            )
        },
{
    lemma_membership_accurate(requests.take(k), peer);
    lemma_membership_accurate(requests.take(k), requests[k].subject());
}

/// A connection hears nothing before its own join: whoever is owed the
/// announcement of the request at position `k` has joined at an earlier
/// position.
pub proof fn lemma_heard_only_after_own_join(requests: Seq<Request>, k: int, peer: ConnectionId)
    requires
        0 <= k < requests.len(),
        audience_at(requests, k).contains(peer),
    ensures
        exists|i: int| 0 <= i < k && #[trigger] requests[i] == Request::Join(peer),
{
    lemma_announced_in_order(requests, k, peer);
    let earlier = requests.take(k);
    let i = choose|i: int|
        0 <= i < earlier.len() && #[trigger] earlier[i] == Request::Join(peer) && forall|j: int|
            i < j < earlier.len() ==> #[trigger] earlier[j] != Request::Leave(peer);
    assert(requests[i] == Request::Join(peer));
}

/// A leave is idempotent: served again, it changes nothing and is announced
/// to nobody.
pub proof fn lemma_leave_idempotent(members: Set<ConnectionId>, id: ConnectionId)
    ensures
        members_after(members_after(members, Request::Leave(id)), Request::Leave(id))
            == members_after(members, Request::Leave(id)),
        audience(members_after(members, Request::Leave(id)), Request::Leave(id))
            == Set::<ConnectionId>::empty(),
{
}

} // verus!
