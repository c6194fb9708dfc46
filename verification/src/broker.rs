//! The broker: the one owner of the registry of live connections.
//!
//! Whoever wants the registry changed, or an event sent to everybody, puts
//! a command on the broker's queue through a [`WebsocketServerHandler`] and
//! waits for the acknowledgment. The broker's host takes the commands off
//! the queue one at a time and gives each to [`WebsocketServer::handle`], so
//! that all of them see the registry in one order.

use crate::protocol::WebsocketResponseData;
use std::collections::HashMap;
use tokio::sync::mpsc::{UnboundedReceiver, UnboundedSender};
use tokio::sync::oneshot;
use vstd::prelude::*;

verus! {

/// `tokio::sync::mpsc::UnboundedSender`: the sending end of a queue
/// without a bound. Nothing is known of what is inside.
#[verifier::external_type_specification]
#[verifier::external_body]
#[verifier::reject_recursive_types(T)]
pub struct ExUnboundedSender<T>(UnboundedSender<T>);

/// `tokio::sync::mpsc::UnboundedReceiver`: the receiving end of such a
/// queue. Nothing is known of what is inside.
#[verifier::external_type_specification]
#[verifier::external_body]
#[verifier::reject_recursive_types(T)]
pub struct ExUnboundedReceiver<T>(UnboundedReceiver<T>);

/// `tokio::sync::oneshot::Sender`: the sending end of a channel for one
/// value. Nothing is known of what is inside.
#[verifier::external_type_specification]
#[verifier::external_body]
#[verifier::reject_recursive_types(T)]
pub struct ExOneshotSender<T>(oneshot::Sender<T>);

/// `tokio::sync::oneshot::Receiver`: the receiving end of such a channel.
/// Nothing is known of what is inside.
#[verifier::external_type_specification]
#[verifier::external_body]
#[verifier::reject_recursive_types(T)]
pub struct ExOneshotReceiver<T>(oneshot::Receiver<T>);

/// `tokio::sync::oneshot::error::RecvError`: what waiting on a receiver
/// gives when the sending end was dropped.
#[verifier::external_type_specification]
#[verifier::external_body]
pub struct ExRecvError(oneshot::error::RecvError);

/// `UnboundedSender::clone`: another sending end of the same queue. Nothing
/// is claimed of it.
pub assume_specification<T>[ <UnboundedSender<T> as Clone>::clone ](
    queue: &UnboundedSender<T>,
) -> (other: UnboundedSender<T>)
;

/// The key of a connection in the registry.
pub type ConnId = usize;

/// What is asked of the broker, with the channel on which it answers.
#[derive(Debug)]
pub enum Command {
    Connect {
        user_id: ConnId,
        conn_tx: UnboundedSender<WebsocketResponseData>,
        res_tx: oneshot::Sender<()>,
    },
    Disconnect { conn: ConnId, res_tx: oneshot::Sender<()> },
    Message { msg: WebsocketResponseData, res_tx: oneshot::Sender<()> },
}

/// What a command asks for, without its channels and its payload.
pub enum Request {
    Connect(ConnId),
    Disconnect(ConnId),
    Broadcast,
}

impl Command {
    /// The command that asks to register `user_id` with the sending end
    /// `conn_tx`, to be acknowledged on `res_tx`.
    pub fn connect(
        user_id: ConnId,
        conn_tx: UnboundedSender<WebsocketResponseData>,
        res_tx: oneshot::Sender<()>,
    ) -> (command: Command)
        ensures
            command == (Command::Connect { user_id, conn_tx, res_tx }),
    {
        Command::Connect { user_id, conn_tx, res_tx }
    }

    /// The command that asks to remove `conn`, to be acknowledged on
    /// `res_tx`.
    pub fn disconnect(conn: ConnId, res_tx: oneshot::Sender<()>) -> (command: Command)
        ensures
            command == (Command::Disconnect { conn, res_tx }),
    {
        Command::Disconnect { conn, res_tx }
    }

    /// The command that asks to send `msg` to every registered connection,
    /// to be acknowledged on `res_tx`.
    pub fn message(msg: WebsocketResponseData, res_tx: oneshot::Sender<()>) -> (command: Command)
        ensures
            command == (Command::Message { msg, res_tx }),
    {
        Command::Message { msg, res_tx }
    }

    /// What the command asks for.
    pub open spec fn request(&self) -> Request {
        match self {
            Command::Connect { user_id, .. } => Request::Connect(*user_id),
            Command::Disconnect { conn, .. } => Request::Disconnect(*conn),
            Command::Message { .. } => Request::Broadcast,
        }
    }
}

/// The members of the registry after one request.
pub open spec fn members_after(members: Set<ConnId>, request: Request) -> Set<ConnId> {
    match request {
        Request::Connect(id) => members.insert(id),
        Request::Disconnect(id) => members.remove(id),
        Request::Broadcast => members,
    }
}

/// The members of the registry after a run of requests, taken in order.
pub open spec fn members_after_all(members: Set<ConnId>, requests: Seq<Request>) -> Set<ConnId>
    decreases requests.len(),
{
    if requests.len() == 0 {
        members
    } else {
        members_after(members_after_all(members, requests.drop_last()), requests.last())
    }
}

/// One event handed to the members of the registry: who took it, and whose
/// receiving end was gone.
pub struct FanOut {
    pub event: WebsocketResponseData,
    pub delivered: Vec<ConnId>,
    pub dropped: Vec<ConnId>,
}

impl FanOut {
    /// The fan-out of `event` before anybody was tried.
    pub fn begin(event: WebsocketResponseData) -> (sent: Self)
        ensures
            sent.event == event,
            sent.delivered@ == Seq::<ConnId>::empty(),
            sent.dropped@ == Seq::<ConnId>::empty(),
    {
        FanOut { event, delivered: Vec::new(), dropped: Vec::new() }
    }

    /// Takes note of what the queue of `id` answered: a connection whose
    /// queue took the event is listed as delivered to, one whose queue did
    /// not as dropped.
    pub fn note(&mut self, id: ConnId, accepted: bool)
        ensures
            final(self).event == old(self).event,
            final(self).delivered@ == if accepted {
                old(self).delivered@.push(id)
            } else {
                old(self).delivered@
            },
            final(self).dropped@ == if accepted {
                old(self).dropped@
            } else {
                old(self).dropped@.push(id)
            },
    {
        if accepted {
            self.delivered.push(id);
        } else {
            self.dropped.push(id);
        }
    }

    /// Every one of `members` was tried once, and nobody else.
    pub open spec fn reaches(&self, members: Set<ConnId>) -> bool {
        &&& self.delivered@.no_duplicates()
        &&& self.dropped@.no_duplicates()
        &&& forall|id: ConnId| !(self.delivered@.contains(id) && self.dropped@.contains(id))
        &&& forall|id: ConnId|
            members.contains(id) <==> self.delivered@.contains(id) || self.dropped@.contains(id)
    }
}

/// What became of one command.
pub struct Handled {
    /// The fan-out that the command caused, if it caused one.
    pub fan_out: Option<FanOut>,
    /// Whether the command connected a key that was registered, so that the
    /// sending end that was registered under it is replaced. A caller is
    /// never to reuse the key of a live connection: where this is true, one
    /// did.
    pub replaced: bool,
    /// Whether the caller was still waiting when the acknowledgment was sent.
    pub acknowledged: bool,
}

impl Handled {
    /// The record of a command: its fan-out, whether it replaced a
    /// registered connection, and what the sending of the acknowledgment
    /// answered.
    pub fn record(fan_out: Option<FanOut>, replaced: bool, acknowledged: bool) -> (done: Handled)
        ensures
            done == (Handled { fan_out, replaced, acknowledged }),
    {
        Handled { fan_out, replaced, acknowledged }
    }
}

/// `tokio::sync::mpsc::unbounded_channel`: a new queue without a bound, as
/// its sending and its receiving end. Nothing is claimed of either.
#[verifier::external_body]
fn command_queue() -> (ends: (UnboundedSender<Command>, UnboundedReceiver<Command>)) {
    tokio::sync::mpsc::unbounded_channel()
}

/// `tokio::sync::oneshot::channel`: a new channel for one acknowledgment.
/// Nothing is claimed of either end.
#[verifier::external_body]
fn acknowledgment() -> (ends: (oneshot::Sender<()>, oneshot::Receiver<()>)) {
    oneshot::channel()
}

/// `UnboundedSender::send` on a command queue. The queue takes the command
/// unless its receiving end is closed or dropped, which only the outcome
/// tells. A command that the queue does not take comes back as it was
/// given.
#[verifier::external_body]
fn submit(queue: &UnboundedSender<Command>, command: Command) -> (outcome: Result<(), Command>)
    ensures
        outcome matches Err(refused) ==> refused == command,
{
    queue.send(command).map_err(|refused| refused.0)
}

/// `UnboundedSender::send` on a connection's queue, without waiting. The
/// queue takes the event unless its receiving end is closed or dropped,
/// which only the outcome tells: nothing is claimed of it.
#[verifier::external_body]
fn hand_over(
    queue: &UnboundedSender<WebsocketResponseData>,
    event: WebsocketResponseData,
) -> (accepted: bool) {
    queue.send(event).is_ok()
}

/// `oneshot::Sender::send` of the acknowledgment. It arrives unless the
/// receiving end is closed or dropped, which only the outcome tells: nothing is
/// claimed of it.
#[verifier::external_body]
fn acknowledge(caller: oneshot::Sender<()>) -> (arrived: bool) {
    caller.send(()).is_ok()
}

/// The broker's registry of live connections.
pub struct WebsocketServer {
    sessions: HashMap<ConnId, UnboundedSender<WebsocketResponseData>>,
    handled: Ghost<Seq<Request>>,
}

impl WebsocketServer {
    /// The registry: for each live connection, the sending end of its queue.
    pub closed spec fn registry(&self) -> Map<ConnId, UnboundedSender<WebsocketResponseData>> {
        self.sessions@
    }

    /// The connections that are registered.
    pub open spec fn members(&self) -> Set<ConnId> {
        self.registry().dom()
    }

    /// What the broker has been asked so far, in the order in which it was
    /// handled.
    pub closed spec fn history(&self) -> Seq<Request> {
        self.handled@
    }

    /// The registry holds what its history says: the broker started empty
    /// and has handled every request in it.
    pub closed spec fn wf(&self) -> bool {
        self.sessions@.dom() == members_after_all(Set::empty(), self.handled@)
    }

    /// The members of a broker are those that its history leaves.
    pub proof fn lemma_members_follow_history(&self)
        requires
            self.wf(),
        ensures
            self.members() == members_after_all(Set::empty(), self.history()),
    {
    }

    /// A broker with an empty registry, a handle to the queue of its
    /// commands, and the end of that queue from which its host takes them.
    pub fn new() -> (parts: (Self, WebsocketServerHandler, UnboundedReceiver<Command>))
        ensures
            parts.0.registry() == Map::<ConnId, UnboundedSender<WebsocketResponseData>>::empty(),
            parts.0.history() == Seq::<Request>::empty(),
            parts.0.wf(),
    {
        let (cmd_tx, cmd_rx) = command_queue();
        let server = WebsocketServer { sessions: HashMap::new(), handled: Ghost(Seq::empty()) };
        (server, WebsocketServerHandler { cmd_tx }, cmd_rx)
    }

    /// How many connections are registered.
    pub fn len(&self) -> (n: usize)
        ensures
            n == self.members().len(),
            self.members().finite(),
    {
        broadcast use vstd::std_specs::hash::group_hash_axioms;

        self.sessions.len()
    }

    /// Whether `conn_id` is registered.
    pub fn is_registered(&self, conn_id: ConnId) -> (found: bool)
        ensures
            found == self.members().contains(conn_id),
    {
        broadcast use vstd::std_specs::hash::group_hash_axioms;

        self.sessions.contains_key(&conn_id)
    }

    /// Hands `event` to every registered connection, each once. A connection
    /// whose receiving end is gone is passed over and stays registered.
    fn send_system_message(&self, event: WebsocketResponseData) -> (sent: FanOut)
        ensures
            sent.event == event,
            sent.reaches(self.members()),
            sent.delivered@.len() + sent.dropped@.len() == self.members().len(),
    {
        broadcast use vstd::std_specs::hash::group_hash_axioms;

        let mut sent = FanOut::begin(event);
        let ghost registry = self.sessions@;
        for pair in it: self.sessions.iter()
            invariant
                registry == self.sessions@,
                sent.event == event,
                it.seq().no_duplicates(),
                it.seq().len() == registry.dom().len(),
                forall|i: int|
                    0 <= i < it.seq().len() ==> registry.contains_key(*(#[trigger] it.seq()[i]).0)
                        && registry[*it.seq()[i].0] == *it.seq()[i].1,
                forall|id: ConnId| #[trigger]
                    registry.contains_key(id) ==> it.seq().contains((&id, &registry[id])),
                sent.delivered@.len() + sent.dropped@.len() == it.index(),
                sent.delivered@.no_duplicates(),
                sent.dropped@.no_duplicates(),
                forall|id: ConnId| !(sent.delivered@.contains(id) && sent.dropped@.contains(id)),
                forall|id: ConnId|
                    (sent.delivered@.contains(id) || sent.dropped@.contains(id)) <==> exists|i: int|
                        0 <= i < it.index() && *(#[trigger] it.seq()[i]).0 == id,
        {
            let (id, queue) = pair;
            let ghost at = it.index();
            proof {
                assert(it.seq()[at] == pair);
                assert forall|i: int| 0 <= i < at implies *(#[trigger] it.seq()[i]).0 != *id by {
                    if *it.seq()[i].0 == *id {
                        assert(it.seq()[i] == it.seq()[at]);
                    }
                }
            }
            let ghost before_delivered = sent.delivered@;
            let ghost before_dropped = sent.dropped@;
            assert(!before_delivered.contains(*id) && !before_dropped.contains(*id));
            let accepted = hand_over(queue, sent.event.clone());
            sent.note(*id, accepted);
            proof {
                assert(sent.delivered@.no_duplicates()) by {
                    assert forall|i: int, j: int|
                        0 <= i < sent.delivered@.len() && 0 <= j < sent.delivered@.len() && i != j implies sent.delivered@[i]
                        != sent.delivered@[j] by {
                        if i < before_delivered.len() && j < before_delivered.len() {
                        } else if i < before_delivered.len() {
                            assert(before_delivered.contains(before_delivered[i]));
                        } else if j < before_delivered.len() {
                            assert(before_delivered.contains(before_delivered[j]));
                        }
                    }
                }
                assert(sent.dropped@.no_duplicates()) by {
                    assert forall|i: int, j: int|
                        0 <= i < sent.dropped@.len() && 0 <= j < sent.dropped@.len() && i != j implies sent.dropped@[i]
                        != sent.dropped@[j] by {
                        if i < before_dropped.len() && j < before_dropped.len() {
                        } else if i < before_dropped.len() {
                            assert(before_dropped.contains(before_dropped[i]));
                        } else if j < before_dropped.len() {
                            assert(before_dropped.contains(before_dropped[j]));
                        }
                    }
                }
                assert forall|other: ConnId|
                    (sent.delivered@.contains(other) || sent.dropped@.contains(other)) <==> exists|i: int|
                        0 <= i < at + 1 && *(#[trigger] it.seq()[i]).0 == other by {
                    if sent.delivered@.contains(other) || sent.dropped@.contains(other) {
                        if other == *id {
                            assert(*it.seq()[at].0 == other);
                        } else {
                            assert(before_delivered.contains(other) || before_dropped.contains(
                                other,
                            )) by {
                                vstd::seq_lib::lemma_seq_contains_after_push(before_delivered, *id, other);
                                vstd::seq_lib::lemma_seq_contains_after_push(before_dropped, *id, other);
                            }
                        }
                    }
                    if exists|i: int| 0 <= i < at + 1 && *(#[trigger] it.seq()[i]).0 == other {
                        let i = choose|i: int| 0 <= i < at + 1 && *(#[trigger] it.seq()[i]).0 == other;
                        if i == at {
                            assert(sent.delivered@.last() == *id || sent.dropped@.last() == *id);
                        } else {
                            assert(before_delivered.contains(other) || before_dropped.contains(other));
                            vstd::seq_lib::lemma_seq_contains_after_push(before_delivered, *id, other);
                            vstd::seq_lib::lemma_seq_contains_after_push(before_dropped, *id, other);
                        }
                    }
                }
            }
        }
        sent
    }

    /// Registers `user_id` under `tx` and tells every registered connection,
    /// the new one among them, that someone has joined. A key that is
    /// registered is not to be connected again; where one is, `tx` takes the
    /// place of what was registered under it, and the second part of the
    /// result says so.
    fn connect(&mut self, user_id: ConnId, tx: UnboundedSender<WebsocketResponseData>) -> (out: (
        FanOut,
        bool,
    ))
        requires
            old(self).wf(),
        ensures
            final(self).wf(),
            final(self).registry() == old(self).registry().insert(user_id, tx),
            final(self).history() == old(self).history().push(Request::Connect(user_id)),
            out.0.event.is_ack("Someone has joined"@),
            out.0.reaches(final(self).members()),
            out.0.delivered@.len() + out.0.dropped@.len() == final(self).members().len(),
            out.1 == old(self).members().contains(user_id),
    {
        broadcast use vstd::std_specs::hash::group_hash_axioms;

        proof {
            assert(self.handled@.push(Request::Connect(user_id)).drop_last() =~= self.handled@);
        }
        let replaced = self.sessions.insert(user_id, tx).is_some();
        self.handled = Ghost(self.handled@.push(Request::Connect(user_id)));
        (self.send_system_message(WebsocketResponseData::joined()), replaced)
    }

    /// Removes `conn_id`. If it was registered, tells the connections that
    /// remain that a user was removed. If it was not, does nothing.
    fn disconnect(&mut self, conn_id: ConnId) -> (sent: Option<FanOut>)
        requires
            old(self).wf(),
        ensures
            final(self).wf(),
            final(self).registry() == old(self).registry().remove(conn_id),
            final(self).history() == old(self).history().push(Request::Disconnect(conn_id)),
            sent is Some <==> old(self).members().contains(conn_id),
            sent matches Some(notice) ==> {
                &&& notice.event.is_ack("User Removed"@)
                &&& notice.reaches(final(self).members())
                &&& notice.delivered@.len() + notice.dropped@.len() == final(self).members().len()
            },
    {
        broadcast use vstd::std_specs::hash::group_hash_axioms;

        proof {
            assert(self.handled@.push(Request::Disconnect(conn_id)).drop_last() =~= self.handled@);
        }
        let removed = self.sessions.remove(&conn_id);
        self.handled = Ghost(self.handled@.push(Request::Disconnect(conn_id)));
        if removed.is_some() {
            Some(self.send_system_message(WebsocketResponseData::left()))
        } else {
            None
        }
    }

    /// Carries out one command and acknowledges it to whoever sent it, after
    /// the fan-out that it caused, if any, has been handed to every queue.
    ///
    /// `Connect` registers the connection and tells every registered
    /// connection, the new one among them, that someone has joined. Its key
    /// is not to be that of a registered connection; where it is, the new
    /// sending end takes the place of the old one, and `replaced` reports
    /// it. `Disconnect` removes the connection and tells those that remain;
    /// of a connection that is not registered it changes nothing and tells
    /// nobody. `Message` hands the event to every registered connection and
    /// leaves the registry as it was, also where a connection's receiving
    /// end is gone.
    pub fn handle(&mut self, command: Command) -> (done: Handled)
        requires
            old(self).wf(),
        ensures
            final(self).wf(),
            final(self).history() == old(self).history().push(command.request()),
            final(self).members() == members_after(old(self).members(), command.request()),
            final(self).members() == members_after_all(Set::empty(), final(self).history()),
            final(self).members().finite(),
            match command {
                Command::Connect { user_id, conn_tx, .. } => {
                    &&& final(self).registry() == old(self).registry().insert(user_id, conn_tx)
                    &&& done.fan_out matches Some(notice)
                    &&& notice.event.is_ack("Someone has joined"@)
                    &&& notice.reaches(final(self).members())
                },
                Command::Disconnect { conn, .. } => {
                    &&& final(self).registry() == old(self).registry().remove(conn)
                    &&& done.fan_out is Some <==> old(self).members().contains(conn)
                    &&& done.fan_out matches Some(notice) ==> notice.event.is_ack("User Removed"@)
                        && notice.reaches(final(self).members())
                },
                Command::Message { msg, .. } => {
                    &&& final(self).registry() == old(self).registry()
                    &&& done.fan_out matches Some(sent)
                    &&& sent.event == msg
                    &&& sent.reaches(final(self).members())
                },
            },
            done.fan_out matches Some(sent) ==> sent.delivered@.len() + sent.dropped@.len()
                == final(self).members().len(),
            done.replaced <==> (command matches Command::Connect { user_id, .. } && old(
                self,
            ).members().contains(user_id)),
    {
        broadcast use vstd::std_specs::hash::group_hash_axioms;

        let (fan_out, replaced, res_tx) = match command {
            Command::Connect { user_id, conn_tx, res_tx } => {
                let (notice, replaced) = self.connect(user_id, conn_tx);
                (Some(notice), replaced, res_tx)
            },
            Command::Disconnect { conn, res_tx } => { (self.disconnect(conn), false, res_tx) },
            Command::Message { msg, res_tx } => {
                proof {
                    assert(self.handled@.push(Request::Broadcast).drop_last() =~= self.handled@);
                }
                self.handled = Ghost(self.handled@.push(Request::Broadcast));
                (Some(self.send_system_message(msg)), false, res_tx)
            },
        };
        Handled::record(fan_out, replaced, acknowledge(res_tx))
    }
}

/// A handle to the broker's queue. It may be copied and shared freely.
#[derive(Clone)]
pub struct WebsocketServerHandler {
    cmd_tx: UnboundedSender<Command>,
}

impl WebsocketServerHandler {
    /// What the caller gets once its command was put to the queue: the
    /// channel on which the broker acknowledges, if the queue took the
    /// command, and the command itself if it did not.
    pub fn submitted(outcome: Result<(), Command>, res_rx: oneshot::Receiver<()>) -> (waiting:
        Result<oneshot::Receiver<()>, Command>)
        ensures
            waiting == match outcome {
                Ok(_) => Ok::<oneshot::Receiver<()>, Command>(res_rx),
                Err(refused) => Err::<oneshot::Receiver<()>, Command>(refused),
            },
    {
        match outcome {
            Ok(_) => Ok(res_rx),
            Err(refused) => Err(refused),
        }
    }

    /// Asks the broker to register `user_id` with the sending end of its
    /// queue, and returns the channel on which the broker acknowledges. If
    /// the broker's queue is closed, nothing is asked, and the command comes
    /// back with the key and the sending end as they were given.
    pub fn connect(
        &self,
        user_id: ConnId,
        conn_tx: UnboundedSender<WebsocketResponseData>,
    ) -> (waiting: Result<oneshot::Receiver<()>, Command>)
        ensures
            waiting matches Err(refused) ==> (refused matches Command::Connect {
                user_id: key,
                conn_tx: queue,
                ..
            } && key == user_id && queue == conn_tx),
    {
        let (res_tx, res_rx) = acknowledgment();
        Self::submitted(submit(&self.cmd_tx, Command::connect(user_id, conn_tx, res_tx)), res_rx)
    }

    /// Asks the broker to remove `connection_id`, and returns the channel on
    /// which the broker acknowledges. If the broker's queue is closed, nothing
    /// is asked, and the command comes back with the key as it was given.
    pub fn disconnect(&self, connection_id: ConnId) -> (waiting: Result<
        oneshot::Receiver<()>,
        Command,
    >)
        ensures
            waiting matches Err(refused) ==> (refused matches Command::Disconnect { conn, .. }
                && conn == connection_id),
    {
        let (res_tx, res_rx) = acknowledgment();
        Self::submitted(submit(&self.cmd_tx, Command::disconnect(connection_id, res_tx)), res_rx)
    }

    /// Asks the broker to send `msg` to every registered connection, and
    /// returns the channel on which the broker acknowledges. If the broker's
    /// queue is closed, nothing is asked, and the command comes back with the
    /// event as it was given.
    pub fn send_message(&self, msg: WebsocketResponseData) -> (waiting: Result<
        oneshot::Receiver<()>,
        Command,
    >)
        ensures
            waiting matches Err(refused) ==> (refused matches Command::Message { msg: event, .. }
                && event == msg),
    {
        let (res_tx, res_rx) = acknowledgment();
        Self::submitted(submit(&self.cmd_tx, Command::message(msg, res_tx)), res_rx)
    }
}

} // verus!
