//! What holds of the broker and of a session over whole runs: stated over
//! the same models that the contracts of `broker` and `session` use, and
//! proved from them.

use crate::broker::{
    members_after, members_after_all, Command, ConnId, FanOut, Request, WebsocketServer,
};
use crate::session::{
    Action, DisconnectReason, Event, Frame, Session, SessionState, CLIENT_TIMEOUT,
    HEARTBEAT_INTERVAL,
};
use crate::protocol::WebsocketMessage;
use vstd::prelude::*;

verus! {

/// How often `requests` asks to connect `id`.
pub open spec fn connects(requests: Seq<Request>, id: ConnId) -> nat
    decreases requests.len(),
{
    if requests.len() == 0 {
        0
    } else {
        connects(requests.drop_last(), id) + if requests.last() == Request::Connect(id) {
            1nat
        } else {
            0nat
        }
    }
}

/// How often `requests` asks to disconnect `id` while it is registered, in
/// a broker that starts empty. A disconnect of a connection that is not
/// registered matches no connect and is not counted.
pub open spec fn matching_disconnects(requests: Seq<Request>, id: ConnId) -> nat
    decreases requests.len(),
{
    if requests.len() == 0 {
        0
    } else {
        matching_disconnects(requests.drop_last(), id) + if requests.last() == Request::Disconnect(
            id,
        ) && members_after_all(Set::empty(), requests.drop_last()).contains(id) {
            1nat
        } else {
            0nat
        }
    }
}

/// No request in `requests` connects a key that is registered at that
/// moment, in a broker that starts empty.
pub open spec fn connects_only_the_absent(requests: Seq<Request>) -> bool {
    forall|i: int|
        0 <= i < requests.len() ==> (#[trigger] requests[i] matches Request::Connect(id)
            ==> !members_after_all(Set::empty(), requests.take(i)).contains(id))
}

/// A run in which no key was connected while registered stays such a run
/// when a request is added that does not connect a registered key: as long
/// as the broker reports no replacement, what it has handled is such a run.
pub proof fn lemma_run_without_replacement(requests: Seq<Request>, request: Request)
    requires
        connects_only_the_absent(requests),
        request matches Request::Connect(id) ==> !members_after_all(
            Set::empty(),
            requests,
        ).contains(id),
    ensures
        connects_only_the_absent(requests.push(request)),
{
    let longer = requests.push(request);
    assert forall|i: int| 0 <= i < longer.len() implies (#[trigger] longer[i] matches Request::Connect(
        id,
    ) ==> !members_after_all(Set::empty(), longer.take(i)).contains(id)) by {
        if i < requests.len() {
            assert(longer.take(i) =~= requests.take(i));
            assert(longer[i] == requests[i]);
        } else {
            assert(longer.take(i) =~= requests);
        }
    }
}

/// Removing a connection that is not registered changes nothing, and so
/// does removing one a second time.
pub proof fn lemma_disconnect_is_idempotent(members: Set<ConnId>, id: ConnId)
    ensures
        !members.contains(id) ==> members_after(members, Request::Disconnect(id)) == members,
        members_after(members_after(members, Request::Disconnect(id)), Request::Disconnect(id))
            == members_after(members, Request::Disconnect(id)),
        !members_after(members, Request::Disconnect(id)).contains(id),
{
    if !members.contains(id) {
        assert(members.remove(id) =~= members);
    }
    assert(members.remove(id).remove(id) =~= members.remove(id));
}

/// In a broker that starts empty and is never asked to connect a key that
/// is registered, a connection is registered exactly when it has been
/// connected more often than it has been disconnected while registered, and
/// then once more.
pub proof fn lemma_registry_counts(requests: Seq<Request>, id: ConnId)
    requires
        connects_only_the_absent(requests),
    ensures
        members_after_all(Set::empty(), requests).contains(id) <==> connects(requests, id)
            > matching_disconnects(requests, id),
        connects(requests, id) - matching_disconnects(requests, id) == if members_after_all(
            Set::empty(),
            requests,
        ).contains(id) {
            1int
        } else {
            0int
        },
    decreases requests.len(),
{
    if requests.len() > 0 {
        let earlier = requests.drop_last();
        assert(connects_only_the_absent(earlier)) by {
            assert forall|i: int| 0 <= i < earlier.len() implies (#[trigger] earlier[i] matches Request::Connect(
                other,
            ) ==> !members_after_all(Set::empty(), earlier.take(i)).contains(other)) by {
                assert(earlier.take(i) =~= requests.take(i));
                assert(requests[i] == earlier[i]);
            }
        }
        lemma_registry_counts(earlier, id);
        if requests.last() == Request::Connect(id) {
            let at = requests.len() - 1;
            assert(requests[at] == Request::Connect(id));
            assert(requests.take(at) =~= earlier);
        }
    }
}

/// The same, of the whole registry: its members are the keys with more
/// connects than matching disconnects.
pub proof fn lemma_registry_is_the_balance(requests: Seq<Request>)
    requires
        connects_only_the_absent(requests),
    ensures
        members_after_all(Set::empty(), requests) == Set::new(
            |id: ConnId| connects(requests, id) > matching_disconnects(requests, id),
        ),
{
    assert forall|id: ConnId|
        members_after_all(Set::empty(), requests).contains(id) <==> connects(requests, id)
            > matching_disconnects(requests, id) by {
        lemma_registry_counts(requests, id);
    }
    assert(members_after_all(Set::empty(), requests) =~= Set::new(
        |id: ConnId| connects(requests, id) > matching_disconnects(requests, id),
    ));
}

/// The same, of a broker as it stands: if it was never asked to connect a
/// key that was registered, its members are the keys with more connects
/// than matching disconnects in what it has handled.
pub proof fn lemma_broker_holds_the_balance(server: &WebsocketServer)
    requires
        server.wf(),
        connects_only_the_absent(server.history()),
    ensures
        server.members() == Set::new(
            |id: ConnId|
                connects(server.history(), id) > matching_disconnects(server.history(), id),
        ),
{
    server.lemma_members_follow_history();
    lemma_registry_is_the_balance(server.history());
}

/// A fan-out to a registry of N members tries N queues: those that took the
/// event and those whose receiving end was gone add up to N.
pub proof fn lemma_fan_out_counts(sent: FanOut, members: Set<ConnId>)
    requires
        sent.reaches(members),
    ensures
        members.finite(),
        sent.delivered@.len() + sent.dropped@.len() == members.len(),
{
    broadcast use vstd::seq_lib::seq_to_set_is_finite;

    let took = sent.delivered@.to_set();
    let gone = sent.dropped@.to_set();
    sent.delivered@.unique_seq_to_set();
    sent.dropped@.unique_seq_to_set();
    assert(took.disjoint(gone));
    assert(took + gone =~= members);
    vstd::set_lib::lemma_set_disjoint_lens(took, gone);
}

/// Once a connection has been removed, no fan-out tries it, whatever its
/// queue would have answered.
pub proof fn lemma_removed_is_not_reached(members: Set<ConnId>, id: ConnId, sent: FanOut)
    requires
        sent.reaches(members_after(members, Request::Disconnect(id))),
    ensures
        !sent.delivered@.contains(id),
        !sent.dropped@.contains(id),
{
    assert(!members_after(members, Request::Disconnect(id)).contains(id));
}

/// What a handle puts on the queue for a disconnect, once the broker has
/// handled it, leaves the connection out of the registry: no fan-out after
/// it tries the connection, and handling the like of it again changes
/// nothing.
pub proof fn lemma_disconnect_command_removes(
    members: Set<ConnId>,
    command: Command,
    id: ConnId,
    sent: FanOut,
)
    requires
        command matches Command::Disconnect { conn, .. } && conn == id,
        sent.reaches(members_after(members, command.request())),
    ensures
        command.request() == Request::Disconnect(id),
        !members_after(members, command.request()).contains(id),
        members_after(members_after(members, command.request()), command.request())
            == members_after(members, command.request()),
        !sent.delivered@.contains(id),
        !sent.dropped@.contains(id),
{
    lemma_disconnect_is_idempotent(members, id);
    lemma_removed_is_not_reached(members, id, sent);
}

/// The timeout is a whole number of ticks, and more than one: a client may
/// miss a tick without being taken for gone.
pub proof fn lemma_timeout_spans_ticks()
    ensures
        CLIENT_TIMEOUT % HEARTBEAT_INTERVAL == 0,
        CLIENT_TIMEOUT >= 2 * HEARTBEAT_INTERVAL,
{
}

/// The session that `session` has become after `events`, each with its
/// time, in order.
pub open spec fn session_after(session: Session, events: Seq<(Event, u64)>) -> Session
    decreases events.len(),
{
    if events.len() == 0 {
        session
    } else {
        session_after(session, events.drop_last()).spec_step(events.last().0, events.last().1).0
    }
}

/// The session is active before each of `events`.
pub open spec fn active_before_each(session: Session, events: Seq<(Event, u64)>) -> bool {
    forall|i: int| 0 <= i < events.len() ==> #[trigger] session_after(session, events.take(i)) is Active
}

/// An active session's record changes only in the time of the last
/// heartbeat, and only on an event that counts as a sign of life.
pub proof fn lemma_only_signs_of_life_refresh(state: SessionState, event: Event, now: u64)
    ensures
        match Session::Active(state).spec_step(event, now).0 {
            Session::Active(next) => next == if Session::refreshes(event) {
                state.refreshed(now)
            } else {
                state
            },
            Session::Closing { state: kept, .. } => kept == state,
            _ => false,
        },
{
}

/// A tick that finds an active session silent for longer than the timeout
/// moves it to closing, tagged as timed out, and asks for nothing but its
/// removal from the broker.
pub proof fn lemma_silence_times_out(state: SessionState, now: u64)
    requires
        state.silence(now) > CLIENT_TIMEOUT,
    ensures
        Session::Active(state).spec_step(Event::Tick, now) == (
            Session::Closing { state, reason: DisconnectReason::Timeout },
            seq![Action::Deregister { connection_id: state.connection_id }],
        ),
{
}

/// A session that stays active through events of which none is a sign of
/// life is as it was, so that the next tick later than the timeout closes
/// it as timed out.
pub proof fn lemma_silent_session_times_out(
    state: SessionState,
    events: Seq<(Event, u64)>,
    now: u64,
)
    requires
        forall|i: int| 0 <= i < events.len() ==> !Session::refreshes(#[trigger] events[i].0),
        active_before_each(Session::Active(state), events),
        session_after(Session::Active(state), events) is Active,
        state.silence(now) > CLIENT_TIMEOUT,
    ensures
        session_after(Session::Active(state), events) == Session::Active(state),
        session_after(Session::Active(state), events.push((Event::Tick, now))) == (
            Session::Closing { state, reason: DisconnectReason::Timeout }
        ),
    decreases events.len(),
{
    let start = Session::Active(state);
    if events.len() > 0 {
        let earlier = events.drop_last();
        let at = events.len() - 1;
        assert(events.take(at) =~= earlier);
        assert(session_after(start, earlier) is Active);
        assert(active_before_each(start, earlier)) by {
            assert forall|i: int| 0 <= i < earlier.len() implies #[trigger] session_after(
                start,
                earlier.take(i),
            ) is Active by {
                assert(earlier.take(i) =~= events.take(i));
            }
        }
        assert forall|i: int| 0 <= i < earlier.len() implies !Session::refreshes(
            #[trigger] earlier[i].0,
        ) by {
            assert(earlier[i] == events[i]);
        }
        lemma_silent_session_times_out(state, earlier, now);
        lemma_only_signs_of_life_refresh(state, events.last().0, events.last().1);
        assert(!Session::refreshes(events[at].0));
    }
    let all = events.push((Event::Tick, now));
    assert(all.drop_last() =~= events);
    assert(all.last() == (Event::Tick, now));
    lemma_silence_times_out(state, now);
}

/// Whether an action writes a frame to the session's own transport.
pub open spec fn is_frame(action: Action) -> bool {
    action is Pong || action is Deliver || action is ReportFailure || action is Close
        || action is Reject
}

/// The frames that `session` writes to its own transport over `events`, in
/// the order in which it writes them.
pub open spec fn frames_written(session: Session, events: Seq<(Event, u64)>) -> Seq<Action>
    decreases events.len(),
{
    if events.len() == 0 {
        Seq::empty()
    } else {
        frames_written(session, events.drop_last()) + session_after(
            session,
            events.drop_last(),
        ).spec_step(events.last().0, events.last().1).1.filter(|action: Action| is_frame(action))
    }
}

/// The frame that an event calls for from an active session, whatever the
/// session's record: a pong for a heartbeat, the event itself for one that
/// the broker queued, the failure notice for a message that was not saved.
pub open spec fn frame_for(event: Event) -> Seq<Action> {
    match event {
        Event::Inbound(Frame::Text(WebsocketMessage::Ping(_))) => seq![Action::Pong(None)],
        Event::Inbound(Frame::Ping(payload)) => seq![Action::Pong(Some(payload))],
        Event::Outbound(event) => seq![Action::Deliver(event)],
        Event::PersistFailed => seq![Action::ReportFailure],
        _ => Seq::empty(),
    }
}

/// The frames that `events` call for, in the order of the events.
pub open spec fn frames_called_for(events: Seq<(Event, u64)>) -> Seq<Action>
    decreases events.len(),
{
    if events.len() == 0 {
        Seq::empty()
    } else {
        frames_called_for(events.drop_last()) + frame_for(events.last().0)
    }
}

/// What one event makes an active session write is the frame that the
/// event calls for.
pub proof fn lemma_frame_of_one_event(state: SessionState, event: Event, now: u64)
    ensures
        Session::Active(state).spec_step(event, now).1.filter(|action: Action| is_frame(action))
            == frame_for(event),
{
    reveal_with_fuel(Seq::filter, 2);
    let keep = |action: Action| is_frame(action);
    let actions = Session::Active(state).spec_step(event, now).1;
    if actions.len() == 1 {
        assert(actions.drop_last() =~= Seq::<Action>::empty());
        assert(actions.drop_last().filter(keep) =~= Seq::<Action>::empty());
        assert(actions =~= seq![actions[0]]);
        if keep(actions.last()) {
            assert(actions.filter(keep) =~= seq![actions[0]]);
        } else {
            assert(actions.filter(keep) =~= Seq::<Action>::empty());
        }
    } else {
        assert(actions.len() == 0);
        assert(actions.filter(keep) =~= Seq::<Action>::empty());
    }
    assert(actions.filter(keep) =~= frame_for(event));
}

/// While a session is active, the frames that it writes to its own
/// transport are those that the events call for, one after the other in the
/// order in which the events arrive: none is moved, left out or added.
pub proof fn lemma_frames_keep_arrival_order(state: SessionState, events: Seq<(Event, u64)>)
    requires
        active_before_each(Session::Active(state), events),
    ensures
        frames_written(Session::Active(state), events) == frames_called_for(events),
    decreases events.len(),
{
    let start = Session::Active(state);
    if events.len() > 0 {
        let earlier = events.drop_last();
        let at = events.len() - 1;
        assert(events.take(at) =~= earlier);
        assert(session_after(start, earlier) is Active);
        assert(active_before_each(start, earlier)) by {
            assert forall|i: int| 0 <= i < earlier.len() implies #[trigger] session_after(
                start,
                earlier.take(i),
            ) is Active by {
                assert(earlier.take(i) =~= events.take(i));
            }
        }
        lemma_frames_keep_arrival_order(state, earlier);
        let before = session_after(start, earlier);
        lemma_frame_of_one_event(before->Active_0, events.last().0, events.last().1);
    }
}

} // verus!
