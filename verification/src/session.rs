//! One connection's protocol, as a state machine.
//!
//! A session does no work of its own. Its host feeds it what happened (a
//! frame arrived, the timer ticked, the store answered) together with the
//! time, and carries out the actions it answers with, in their order. The
//! session decides; the host waits, reads and writes.

use crate::models::{AuthUserResponse, CreateMessageRequest, MessageResponse};
use crate::protocol::{WebsocketMessage, WebsocketMessageData, WebsocketResponseData};
use vstd::prelude::*;
use vstd::string::StringExecFns;

verus! {

/// Milliseconds between two ticks of the heartbeat timer.
pub const HEARTBEAT_INTERVAL: u64 = 5000;

/// Milliseconds of silence after which a client counts as gone.
pub const CLIENT_TIMEOUT: u64 = 10000;

/// The largest frame that is read from a client, in bytes.
pub const MAX_FRAME_SIZE: usize = 131072;

/// The largest message that is put together from continuation frames, in
/// bytes.
pub const MAX_CONTINUATION_SIZE: usize = 1048576;

/// Why a session left its active state.
#[derive(Debug, Clone, Copy, PartialEq, Eq, Structural)]
pub enum DisconnectReason {
    /// No heartbeat for longer than [`CLIENT_TIMEOUT`].
    Timeout,
    /// The client closed the connection.
    Disconnect,
    /// The stream failed or ended without a close frame.
    Error,
    /// A text frame could not be decoded.
    Protocol,
}

#[derive(Debug, Clone, Copy, PartialEq, Eq, Structural)]
pub enum CloseCode {
    Normal,
    Protocol,
    Invalid,
}

/// What a close frame carries.
#[derive(Debug, Clone, PartialEq, Eq)]
pub struct CloseReason {
    pub code: CloseCode,
    pub description: Option<String>,
}

impl CloseReason {
    /// Whether the frame has this code and this description.
    pub open spec fn reads(&self, code: CloseCode, description: Option<Seq<char>>) -> bool {
        &&& self.code == code
        &&& match description {
            Some(text) => self.description matches Some(s) && s@ == text,
            None => self.description is None,
        }
    }

    /// The frame for a client whose credentials were not accepted.
    pub fn unauthenticated() -> (frame: Self)
        ensures
            frame.reads(CloseCode::Invalid, Some("Unable to authenticate user."@)),
    {
        CloseReason {
            code: CloseCode::Invalid,
            description: Some(String::from_str("Unable to authenticate user.")),
        }
    }
}

impl DisconnectReason {
    /// The code of the close frame that ends a session for this reason.
    pub open spec fn close_code(self) -> CloseCode {
        match self {
            DisconnectReason::Disconnect => CloseCode::Normal,
            _ => CloseCode::Protocol,
        }
    }

    /// The description in that frame.
    pub open spec fn close_description(self) -> Option<Seq<char>> {
        match self {
            DisconnectReason::Disconnect => None,
            DisconnectReason::Protocol => Some("Unable to deserialize message"@),
            _ => Some("Connection has been closed due to lack of heartbeat."@),
        }
    }

    /// The close frame that ends a session for this reason. A client that
    /// closed gets a normal close. A frame that could not be decoded is a
    /// protocol violation and named as one. A client that fell silent, or whose
    /// stream broke, is told of the missing heartbeat.
    pub fn close_reason(self) -> (frame: CloseReason)
        ensures
            frame.reads(self.close_code(), self.close_description()),
    {
        match self {
            DisconnectReason::Disconnect => CloseReason {
                code: CloseCode::Normal,
                description: None,
            },
            DisconnectReason::Protocol => CloseReason {
                code: CloseCode::Protocol,
                description: Some(String::from_str("Unable to deserialize message")),
            },
            _ => CloseReason {
                code: CloseCode::Protocol,
                description: Some(
                    String::from_str("Connection has been closed due to lack of heartbeat."),
                ),
            },
        }
    }
}

/// A frame as it arrives from the client.
#[derive(Debug, Clone, PartialEq, Eq)]
pub enum Frame {
    /// A text frame that decoded.
    Text(WebsocketMessage),
    /// A text frame that did not.
    Malformed,
    Binary,
    Ping(Vec<u8>),
    Pong,
    Close,
}

/// What happened, as the host reports it.
#[derive(Debug, Clone, PartialEq, Eq)]
pub enum Event {
    /// The connection was upgraded.
    Upgraded,
    /// The upgrade failed.
    UpgradeFailed,
    /// The store accepted the credentials.
    Authenticated(AuthUserResponse),
    /// The store refused them, or failed.
    AuthenticationFailed,
    /// A frame arrived.
    Inbound(Frame),
    /// Reading the stream failed.
    StreamError,
    /// The stream ended without a close frame.
    StreamEnded,
    /// The broker queued an event for this connection.
    Outbound(WebsocketResponseData),
    /// The heartbeat timer ticked.
    Tick,
    /// The store saved the message that was asked for.
    Persisted(MessageResponse),
    /// The store could not save it.
    PersistFailed,
    /// The broker confirmed that the connection is removed.
    Deregistered,
}

/// What the host is to do.
#[derive(Debug, Clone, PartialEq, Eq)]
pub enum Action {
    /// Check the connection's credentials with the store.
    Authenticate,
    /// Close the transport as unauthenticated.
    Reject,
    /// Register the connection with the broker.
    Register { connection_id: usize },
    /// Remove the connection from the broker.
    Deregister { connection_id: usize },
    /// Save a message on behalf of its author.
    Persist { request: CreateMessageRequest, author_id: i32 },
    /// Hand an event to the broker, for every connection.
    Publish(WebsocketResponseData),
    /// Hand the bare acknowledgment to the broker, for every connection.
    PublishAck,
    /// Answer a heartbeat: with the payload of the ping, or with none.
    Pong(Option<Vec<u8>>),
    /// Write an event to this connection.
    Deliver(WebsocketResponseData),
    /// Tell this connection alone that its request failed.
    ReportFailure,
    /// Close the transport.
    Close(DisconnectReason),
}

/// What a session knows of its client while it is connected.
#[derive(Debug, Clone, Copy, PartialEq, Eq, Structural)]
pub struct SessionState {
    /// The key under which the broker knows the connection.
    pub connection_id: usize,
    /// The authenticated user.
    pub user_id: i32,
    /// When the client was last heard from.
    pub last_heartbeat: u64,
}

impl SessionState {
    /// The time since the client was last heard from; none if the clock
    /// reads earlier than it did then.
    pub open spec fn silence(self, now: u64) -> int {
        if now >= self.last_heartbeat {
            now - self.last_heartbeat
        } else {
            0
        }
    }

    /// Whether the client has been silent for longer than the timeout.
    pub open spec fn spec_timed_out(self, now: u64) -> bool {
        self.silence(now) > CLIENT_TIMEOUT
    }

    #[verifier::when_used_as_spec(spec_timed_out)]
    pub fn timed_out(self, now: u64) -> (late: bool)
        ensures
            late == self.spec_timed_out(now),
    {
        now >= self.last_heartbeat && now - self.last_heartbeat > CLIENT_TIMEOUT
    }

    /// The same state, heard from at `now`.
    pub open spec fn refreshed(self, now: u64) -> SessionState {
        SessionState { last_heartbeat: now, ..self }
    }
}

/// The key under which the broker knows the connection of a user.
pub open spec fn spec_connection_id(user_id: i32) -> usize {
    user_id as usize
}

#[verifier::when_used_as_spec(spec_connection_id)]
pub fn connection_id(user_id: i32) -> (key: usize)
    ensures
        key == spec_connection_id(user_id),
{
    user_id as usize
}

/// What a decoded request asks for: nothing for a heartbeat or a
/// notification, the bare acknowledgment for the requests that are accepted
/// and not acted on, and for a message that it be saved.
pub open spec fn spec_handle_json_request(message: WebsocketMessage, user_id: i32) -> Option<
    Action,
> {
    match message {
        WebsocketMessage::Ping(_) => None,
        WebsocketMessage::Data(data) => match data {
            WebsocketMessageData::Channel(_) => Some(Action::PublishAck),
            WebsocketMessageData::Guild(_) => Some(Action::PublishAck),
            WebsocketMessageData::Ack(_) => Some(Action::PublishAck),
            WebsocketMessageData::Message(request) => Some(
                Action::Persist { request, author_id: user_id },
            ),
            WebsocketMessageData::Notification(_) => None,
        },
    }
}

#[verifier::when_used_as_spec(spec_handle_json_request)]
pub fn handle_json_request(message: WebsocketMessage, user_id: i32) -> (action: Option<Action>)
    ensures
        action == spec_handle_json_request(message, user_id),
{
    match message {
        WebsocketMessage::Ping(_) => None,
        WebsocketMessage::Data(data) => match data {
            WebsocketMessageData::Channel(_) => Some(Action::PublishAck),
            WebsocketMessageData::Guild(_) => Some(Action::PublishAck),
            WebsocketMessageData::Ack(_) => Some(Action::PublishAck),
            WebsocketMessageData::Message(request) => Some(
                Action::Persist { request, author_id: user_id },
            ),
            WebsocketMessageData::Notification(_) => None,
        },
    }
}

/// What follows the store's answer to a message: a saved message goes to
/// the broker for everybody, a failure is reported to the sender alone.
pub open spec fn spec_handle_message(saved: Option<MessageResponse>) -> Action {
    match saved {
        Some(message) => Action::Publish(WebsocketResponseData::Message(message)),
        None => Action::ReportFailure,
    }
}

#[verifier::when_used_as_spec(spec_handle_message)]
pub fn handle_message(saved: Option<MessageResponse>) -> (action: Action)
    ensures
        action == spec_handle_message(saved),
{
    match saved {
        Some(message) => Action::Publish(WebsocketResponseData::Message(message)),
        None => Action::ReportFailure,
    }
}

/// A connection's place in the protocol.
#[derive(Debug, Clone, Copy, PartialEq, Eq, Structural)]
pub enum Session {
    /// The transport is being upgraded.
    Handshaking,
    /// The credentials are being checked.
    Authenticating,
    /// The steady state.
    Active(SessionState),
    /// The broker has been asked to remove the connection.
    Closing { state: SessionState, reason: DisconnectReason },
    /// The end. Nothing follows.
    Closed,
}

impl Session {
    /// Whether `event` counts as a sign of life from the client: a ping
    /// frame, or a text frame that decoded.
    pub open spec fn refreshes(event: Event) -> bool {
        event matches Event::Inbound(frame) && (frame is Ping || frame is Text)
    }

    /// What an active session does with a frame.
    pub open spec fn on_frame(state: SessionState, frame: Frame, now: u64) -> (Session, Seq<Action>) {
        match frame {
            Frame::Text(message) => (
                Session::Active(state.refreshed(now)),
                match message {
                    WebsocketMessage::Ping(_) => seq![Action::Pong(None)],
                    _ => match spec_handle_json_request(message, state.user_id) {
                        Some(action) => seq![action],
                        None => Seq::empty(),
                    },
                },
            ),
            Frame::Malformed => (
                Session::Closing { state, reason: DisconnectReason::Protocol },
                seq![Action::Deregister { connection_id: state.connection_id }],
            ),
            Frame::Ping(payload) => (
                Session::Active(state.refreshed(now)),
                seq![Action::Pong(Some(payload))],
            ),
            Frame::Close => (
                Session::Closing { state, reason: DisconnectReason::Disconnect },
                seq![Action::Deregister { connection_id: state.connection_id }],
            ),
            Frame::Binary => (Session::Active(state), Seq::empty()),
            Frame::Pong => (Session::Active(state), Seq::empty()),
        }
    }

    /// What an active session does with an event.
    pub open spec fn on_event(state: SessionState, event: Event, now: u64) -> (Session, Seq<Action>) {
        match event {
            Event::Inbound(frame) => Self::on_frame(state, frame, now),
            Event::StreamError => (
                Session::Closing { state, reason: DisconnectReason::Error },
                seq![Action::Deregister { connection_id: state.connection_id }],
            ),
            Event::StreamEnded => (
                Session::Closing { state, reason: DisconnectReason::Error },
                seq![Action::Deregister { connection_id: state.connection_id }],
            ),
            Event::Outbound(event) => (Session::Active(state), seq![Action::Deliver(event)]),
            Event::Tick => if state.spec_timed_out(now) {
                (
                    Session::Closing { state, reason: DisconnectReason::Timeout },
                    seq![Action::Deregister { connection_id: state.connection_id }],
                )
            } else {
                (Session::Active(state), Seq::empty())
            },
            Event::Persisted(message) => (
                Session::Active(state),
                seq![spec_handle_message(Some(message))],
            ),
            Event::PersistFailed => (Session::Active(state), seq![spec_handle_message(None)]),
            _ => (Session::Active(state), Seq::empty()),
        }
    }

    /// The session after `event` at time `now`, and what the host is to do,
    /// in order. An event that the session's state does not expect changes
    /// nothing and asks for nothing.
    pub open spec fn spec_step(self, event: Event, now: u64) -> (Session, Seq<Action>) {
        match self {
            Session::Handshaking => match event {
                Event::Upgraded => (Session::Authenticating, seq![Action::Authenticate]),
                Event::UpgradeFailed => (Session::Closed, Seq::empty()),
                _ => (self, Seq::empty()),
            },
            Session::Authenticating => match event {
                Event::Authenticated(user) => (
                    Session::Active(
                        SessionState {
                            connection_id: spec_connection_id(user.id),
                            user_id: user.id,
                            last_heartbeat: now,
                        },
                    ),
                    seq![Action::Register { connection_id: spec_connection_id(user.id) }],
                ),
                Event::AuthenticationFailed => (Session::Closed, seq![Action::Reject]),
                _ => (self, Seq::empty()),
            },
            Session::Active(state) => Self::on_event(state, event, now),
            Session::Closing { state, reason } => match event {
                Event::Deregistered => (Session::Closed, seq![Action::Close(reason)]),
                _ => (self, Seq::empty()),
            },
            Session::Closed => (self, Seq::empty()),
        }
    }

    /// A session for a connection that has just been accepted.
    pub fn new() -> (session: Self)
        ensures
            session == Session::Handshaking,
    {
        Session::Handshaking
    }

    /// Takes `event`, which happened at `now`, and returns what the host is
    /// to do, in order.
    pub fn step(&mut self, event: Event, now: u64) -> (actions: Vec<Action>)
        ensures
            (*final(self), actions@) == old(self).spec_step(event, now),
    {
        let mut actions: Vec<Action> = Vec::new();
        match *self {
            Session::Handshaking => match event {
                Event::Upgraded => {
                    *self = Session::Authenticating;
                    actions.push(Action::Authenticate);
                },
                Event::UpgradeFailed => {
                    *self = Session::Closed;
                },
                _ => {},
            },
            Session::Authenticating => match event {
                Event::Authenticated(user) => {
                    let key = connection_id(user.id);
                    *self = Session::Active(
                        SessionState { connection_id: key, user_id: user.id, last_heartbeat: now },
                    );
                    actions.push(Action::Register { connection_id: key });
                },
                Event::AuthenticationFailed => {
                    *self = Session::Closed;
                    actions.push(Action::Reject);
                },
                _ => {},
            },
            Session::Active(state) => {
                let heard = SessionState {
                    connection_id: state.connection_id,
                    user_id: state.user_id,
                    last_heartbeat: now,
                };
                let leave = Action::Deregister { connection_id: state.connection_id };
                match event {
                    Event::Inbound(frame) => match frame {
                        Frame::Text(message) => {
                            *self = Session::Active(heard);
                            match message {
                                WebsocketMessage::Ping(_) => {
                                    actions.push(Action::Pong(None));
                                },
                                _ => match handle_json_request(message, state.user_id) {
                                    Some(action) => {
                                        actions.push(action);
                                    },
                                    None => {},
                                },
                            }
                        },
                        Frame::Malformed => {
                            *self = Session::Closing { state, reason: DisconnectReason::Protocol };
                            actions.push(leave);
                        },
                        Frame::Ping(payload) => {
                            *self = Session::Active(heard);
                            actions.push(Action::Pong(Some(payload)));
                        },
                        Frame::Close => {
                            *self = Session::Closing {
                                state,
                                reason: DisconnectReason::Disconnect,
                            };
                            actions.push(leave);
                        },
                        Frame::Binary => {},
                        Frame::Pong => {},
                    },
                    Event::StreamError => {
                        *self = Session::Closing { state, reason: DisconnectReason::Error };
                        actions.push(leave);
                    },
                    Event::StreamEnded => {
                        *self = Session::Closing { state, reason: DisconnectReason::Error };
                        actions.push(leave);
                    },
                    Event::Outbound(event) => {
                        actions.push(Action::Deliver(event));
                    },
                    Event::Tick => {
                        if state.timed_out(now) {
                            *self = Session::Closing { state, reason: DisconnectReason::Timeout };
                            actions.push(leave);
                        }
                    },
                    Event::Persisted(message) => {
                        actions.push(handle_message(Some(message)));
                    },
                    Event::PersistFailed => {
                        actions.push(handle_message(None));
                    },
                    _ => {},
                }
            },
            Session::Closing { state, reason } => match event {
                Event::Deregistered => {
                    *self = Session::Closed;
                    actions.push(Action::Close(reason));
                },
                _ => {},
            },
            Session::Closed => {},
        }
        actions
    }
}

} // verus!
