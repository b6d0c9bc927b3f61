//! What holds of a connection over whole sequences of inputs.

use crate::connection::{react, Action, ConnectionState, Input};
use crate::event::{ConnectionId, Event, Request};
use crate::heartbeat::Phase;
use vstd::prelude::*;

verus! {

/// The state after `inputs` have been served in order from `s`, and all the
/// actions owed for them, in order.
pub open spec fn run(s: ConnectionState, inputs: Seq<Input>) -> (ConnectionState, Seq<Action>)
    decreases inputs.len(),
{
    if inputs.len() == 0 {
        (s, seq![])
    } else {
        let (mid, before) = run(s, inputs.drop_last());
        let (end, after) = react(mid, inputs.last());
        (end, before + after)
    }
}

/// The requests that `actions` hand to the registry, in order.
pub open spec fn notified(actions: Seq<Action>) -> Seq<Request>
    decreases actions.len(),
{
    if actions.len() == 0 {
        seq![]
    } else {
        let earlier = notified(actions.drop_last());
        match actions.last() {
            Action::Notify(request) => earlier.push(request),
            _ => earlier,
        }
    }
}

/// What a connection with identity `id` has asked of the registry when it
/// went from phase `from` to phase `to`: one leave if it became closed on
/// the way, nothing otherwise.
pub open spec fn owed_leave(id: ConnectionId, from: Phase, to: Phase) -> Seq<Request> {
    if from != Phase::Closed && to == Phase::Closed {
        seq![Request::Leave(id)]
    } else {
        seq![]
    }
}

/// The requests in a concatenation are those of its parts, in order.
pub proof fn lemma_notified_concat(a: Seq<Action>, b: Seq<Action>)
    ensures
        notified(a + b) == notified(a) + notified(b),
    decreases b.len(),
{
    if b.len() > 0 {
        lemma_notified_concat(a, b.drop_last());
        assert((a + b).drop_last() =~= a + b.drop_last());
    }
}

/// Serving `first` and then `second` is serving their concatenation.
pub proof fn lemma_run_concat(s: ConnectionState, first: Seq<Input>, second: Seq<Input>)
    ensures
        run(s, first + second).0 == run(run(s, first).0, second).0,
        run(s, first + second).1 == run(s, first).1 + run(run(s, first).0, second).1,
    decreases second.len(),
{
    if second.len() > 0 {
        lemma_run_concat(s, first, second.drop_last());
        assert((first + second).drop_last() =~= first + second.drop_last());
    }
}

/// One step keeps identity and policy, never leaves the closed phase, and
/// asks for a leave exactly when it makes the connection closed.
pub proof fn lemma_step_leaves_on_closing(s: ConnectionState, input: Input)
    ensures
        react(s, input).0.id == s.id,
        react(s, input).0.policy == s.policy,
        s.phase == Phase::Closed ==> react(s, input) == (s, Seq::<Action>::empty()),
        notified(react(s, input).1) == owed_leave(s.id, s.phase, react(s, input).0.phase),
{
    reveal_with_fuel(notified, 3);
}

/// Closed is terminal: a closed connection stays as it is and owes nothing,
/// whatever arrives.
pub proof fn lemma_closed_is_terminal(s: ConnectionState, inputs: Seq<Input>)
    requires
        s.phase == Phase::Closed,
    ensures
        run(s, inputs) == (s, Seq::<Action>::empty()),
    decreases inputs.len(),
{
    if inputs.len() > 0 {
        lemma_closed_is_terminal(s, inputs.drop_last());
    }
}

/// A connection leaves exactly once: over any sequence of inputs, all it
/// asks of the registry is one leave, in its own name, if the sequence takes
/// it to the closed phase, and nothing if it does not.
pub proof fn lemma_leaves_exactly_once(s: ConnectionState, inputs: Seq<Input>)
    ensures
        run(s, inputs).0.id == s.id,
        run(s, inputs).0.policy == s.policy,
        s.phase == Phase::Closed ==> run(s, inputs).0.phase == Phase::Closed,
        notified(run(s, inputs).1) == owed_leave(s.id, s.phase, run(s, inputs).0.phase),
    decreases inputs.len(),
{
    if inputs.len() > 0 {
        let (mid, before) = run(s, inputs.drop_last());
        let after = react(mid, inputs.last()).1;
        lemma_leaves_exactly_once(s, inputs.drop_last());
        lemma_step_leaves_on_closing(mid, inputs.last());
        lemma_notified_concat(before, after);
        assert(notified(before) + notified(after) =~= owed_leave(
            s.id,
            s.phase,
            run(s, inputs).0.phase,
        ));
    }
}

/// A timeout closes the connection, once: a live connection whose peer has
/// been silent for longer than the timeout stops on the next tick, with no
/// signal from outside. Once it is torn down it is closed, and one leave is
/// all it has asked of the registry, whatever arrives afterwards.
pub proof fn lemma_timeout_closes_once(s: ConnectionState, now: u64, later: Seq<Input>)
    requires
        s.phase == Phase::Active,
        s.policy.expired(s.last_ack, now),
    ensures
        react(s, Input::Tick(now)) == (s.in_phase(Phase::TimedOut), seq![Action::Stop]),
        react(s.in_phase(Phase::TimedOut), Input::Stopped) == (
            s.in_phase(Phase::Closed),
            seq![Action::Notify(Request::Leave(s.id))],
        ),
        run(s, seq![Input::Tick(now), Input::Stopped] + later).0 == s.in_phase(Phase::Closed),
        notified(run(s, seq![Input::Tick(now), Input::Stopped] + later).1) == seq![
            Request::Leave(s.id),
        ],
{
    let teardown = seq![Input::Tick(now), Input::Stopped];
    let closed = run(s, teardown);
    assert(closed.0 == s.in_phase(Phase::Closed)) by {
        reveal_with_fuel(run, 3);
    }
    lemma_run_concat(s, teardown, later);
    lemma_closed_is_terminal(closed.0, later);
    lemma_leaves_exactly_once(s, teardown + later);
}

/// Only a live session sends: it forwards a presence event that reaches it,
/// while a session that has timed out or is closed drops the event, with no
/// action owed and no change of state.
pub proof fn lemma_delivery_needs_live_session(s: ConnectionState, event: Event)
    ensures
        react(s, Input::Deliver(event)) == (
            s,
            if s.phase == Phase::Active {
                seq![Action::Forward(event)]
            } else {
                Seq::<Action>::empty()
            },
        ),
{
}

} // verus!
