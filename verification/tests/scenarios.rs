use chat_gateway::broker::{Command, WebsocketServer, WebsocketServerHandler};
use chat_gateway::models::{AuthUserResponse, CreateMessageRequest, MessageResponse, Timestamp};
use chat_gateway::protocol::{WebsocketMessage, WebsocketMessageData, WebsocketResponseData};
use chat_gateway::session::{Action, DisconnectReason, Event, Frame, Session};
use tokio::sync::mpsc::{unbounded_channel, UnboundedReceiver};

/// What a client saw on its transport.
#[derive(Debug, Clone, PartialEq)]
enum Seen {
    Event(WebsocketResponseData),
    Failure(WebsocketMessage),
    Pong(Vec<u8>),
    Rejected,
    Closed(DisconnectReason),
}

/// A store that saves every message under the next id, unless told to fail.
struct Store {
    next_id: i32,
    failing: bool,
}

impl Store {
    fn create_message(&mut self, request: &CreateMessageRequest, author_id: i32) -> Option<MessageResponse> {
        if self.failing {
            return None;
        }
        self.next_id += 1;
        Some(MessageResponse {
            id: self.next_id,
            author_id,
            author: format!("user{}", author_id),
            content: request.content.clone(),
            attachments: vec![],
            created_date: Timestamp { seconds: 1_700_000_000, nanoseconds: 0 },
            updated_date: Timestamp { seconds: 1_700_000_000, nanoseconds: 0 },
        })
    }
}

/// One connection, hosted as the server hosts it.
struct Client {
    session: Session,
    inbox: Option<UnboundedReceiver<WebsocketResponseData>>,
    seen: Vec<Seen>,
}

struct World {
    server: WebsocketServer,
    handler: WebsocketServerHandler,
    queue: UnboundedReceiver<Command>,
    store: Store,
    now: u64,
}

impl World {
    fn new() -> World {
        let (server, handler, queue) = WebsocketServer::new();
        World { server, handler, queue, store: Store { next_id: 100, failing: false }, now: 0 }
    }

    /// Lets the broker handle what is queued for it.
    fn run_broker(&mut self) {
        while let Ok(command) = self.queue.try_recv() {
            self.server.handle(command);
        }
    }

    /// Feeds one event to a client's session and carries out what it asks.
    fn feed(&mut self, client: &mut Client, event: Event) {
        let mut pending = vec![event];
        while !pending.is_empty() {
            let event = pending.remove(0);
            for action in client.session.step(event, self.now) {
                match action {
                    Action::Authenticate => {}
                    Action::Reject => client.seen.push(Seen::Rejected),
                    Action::Register { connection_id } => {
                        let (tx, rx) = unbounded_channel();
                        client.inbox = Some(rx);
                        let mut waiting = self.handler.connect(connection_id, tx).unwrap();
                        self.run_broker();
                        assert_eq!(waiting.try_recv(), Ok(()));
                    }
                    Action::Deregister { connection_id } => {
                        let mut waiting = self.handler.disconnect(connection_id).unwrap();
                        self.run_broker();
                        assert_eq!(waiting.try_recv(), Ok(()));
                        pending.push(Event::Deregistered);
                    }
                    Action::Persist { request, author_id } => {
                        match self.store.create_message(&request, author_id) {
                            Some(saved) => pending.push(Event::Persisted(saved)),
                            None => pending.push(Event::PersistFailed),
                        }
                    }
                    Action::Publish(event) => {
                        let mut waiting = self.handler.send_message(event).unwrap();
                        self.run_broker();
                        assert_eq!(waiting.try_recv(), Ok(()));
                    }
                    Action::PublishAck => {
                        let mut waiting =
                            self.handler.send_message(WebsocketResponseData::received()).unwrap();
                        self.run_broker();
                        assert_eq!(waiting.try_recv(), Ok(()));
                    }
                    Action::Pong(payload) => client.seen.push(Seen::Pong(payload.unwrap_or_default())),
                    Action::Deliver(event) => client.seen.push(Seen::Event(event)),
                    Action::ReportFailure => client.seen.push(Seen::Failure(WebsocketMessage::failure())),
                    Action::Close(reason) => {
                        client.inbox = None;
                        client.seen.push(Seen::Closed(reason));
                    }
                }
            }
        }
    }

    /// Passes what the broker queued for a client on to its session.
    fn drain(&mut self, client: &mut Client) {
        loop {
            let next = match client.inbox.as_mut() {
                Some(inbox) => inbox.try_recv().ok(),
                None => None,
            };
            match next {
                Some(event) => self.feed(client, Event::Outbound(event)),
                None => break,
            }
        }
    }

    fn join(&mut self, id: i32) -> Client {
        let mut client = Client { session: Session::new(), inbox: None, seen: vec![] };
        self.feed(&mut client, Event::Upgraded);
        self.feed(
            &mut client,
            Event::Authenticated(AuthUserResponse {
                id,
                username: format!("user{}", id),
                token: String::new(),
                refresh_token: "r".to_string(),
                websocket_token: "w".to_string(),
            }),
        );
        client
    }
}

fn joined() -> Seen {
    Seen::Event(WebsocketResponseData::Ack("Someone has joined".to_string()))
}

fn left() -> Seen {
    Seen::Event(WebsocketResponseData::Ack("User Removed".to_string()))
}

fn chat_request(channel_id: i32, content: &str) -> Event {
    Event::Inbound(Frame::Text(WebsocketMessage::Data(WebsocketMessageData::Message(
        CreateMessageRequest { channel_id, content: content.to_string(), attachments: vec![] },
    ))))
}

#[test]
fn two_clients_chat_and_one_leaves() {
    let mut world = World::new();
    let mut a = world.join(1);
    let mut b = world.join(2);
    world.drain(&mut a);
    world.drain(&mut b);
    // A hears of itself and of B; B hears of itself.
    assert_eq!(a.seen, vec![joined(), joined()]);
    assert_eq!(b.seen, vec![joined()]);
    a.seen.clear();
    b.seen.clear();

    world.now = 1_000;
    world.feed(&mut a, chat_request(7, "hello"));
    world.drain(&mut a);
    world.drain(&mut b);
    let expected = Seen::Event(WebsocketResponseData::Message(MessageResponse {
        id: 101,
        author_id: 1,
        author: "user1".to_string(),
        content: "hello".to_string(),
        attachments: vec![],
        created_date: Timestamp { seconds: 1_700_000_000, nanoseconds: 0 },
        updated_date: Timestamp { seconds: 1_700_000_000, nanoseconds: 0 },
    }));
    assert_eq!(a.seen, vec![expected.clone()]);
    assert_eq!(b.seen, vec![expected]);
    a.seen.clear();
    b.seen.clear();

    world.feed(&mut b, Event::Inbound(Frame::Close));
    assert_eq!(b.session, Session::Closed);
    assert_eq!(b.seen, vec![Seen::Closed(DisconnectReason::Disconnect)]);
    world.drain(&mut a);
    assert_eq!(a.seen, vec![left()]);
    assert!(world.server.is_registered(1));
    assert!(!world.server.is_registered(2));
    a.seen.clear();
    b.seen.clear();

    let mut waiting = world
        .handler
        .send_message(WebsocketResponseData::Ack("after".to_string()))
        .unwrap();
    world.run_broker();
    assert_eq!(waiting.try_recv(), Ok(()));
    world.drain(&mut a);
    world.drain(&mut b);
    assert_eq!(a.seen, vec![Seen::Event(WebsocketResponseData::Ack("after".to_string()))]);
    assert_eq!(b.seen, vec![]);
}

#[test]
fn malformed_text_closes_and_deregisters_and_nothing_leaks() {
    let mut world = World::new();
    let mut a = world.join(1);
    let mut b = world.join(2);
    world.drain(&mut a);
    world.drain(&mut b);
    a.seen.clear();
    b.seen.clear();

    world.feed(&mut b, Event::Inbound(Frame::Malformed));
    assert_eq!(b.session, Session::Closed);
    assert_eq!(b.seen, vec![Seen::Closed(DisconnectReason::Protocol)]);
    assert!(!world.server.is_registered(2));
    assert_eq!(world.server.len(), 1);
    world.drain(&mut a);
    // The only thing that the others hear of it is that somebody left.
    assert_eq!(a.seen, vec![left()]);
}

#[test]
fn failed_save_is_told_to_the_sender_only() {
    let mut world = World::new();
    let mut a = world.join(1);
    let mut b = world.join(2);
    world.drain(&mut a);
    world.drain(&mut b);
    a.seen.clear();
    b.seen.clear();

    world.store.failing = true;
    world.feed(&mut a, chat_request(7, "lost"));
    world.drain(&mut a);
    world.drain(&mut b);
    assert_eq!(
        a.seen,
        vec![Seen::Failure(WebsocketMessage::Data(WebsocketMessageData::Ack(
            "An error occurred while processing your request".to_string()
        )))]
    );
    assert_eq!(b.seen, vec![]);
    assert!(matches!(a.session, Session::Active(_)));
    assert!(matches!(b.session, Session::Active(_)));
    assert!(world.server.is_registered(1));
    assert!(world.server.is_registered(2));
    assert_eq!(world.server.len(), 2);
}

#[test]
fn silent_client_is_removed_before_the_next_broadcast() {
    let mut world = World::new();
    let mut a = world.join(1);
    let mut b = world.join(2);
    world.drain(&mut a);
    world.drain(&mut b);
    a.seen.clear();
    b.seen.clear();

    world.now = 9_000;
    world.feed(&mut a, Event::Inbound(Frame::Ping(vec![1])));
    world.now = 10_001;
    world.feed(&mut a, Event::Tick);
    world.feed(&mut b, Event::Tick);
    assert!(matches!(a.session, Session::Active(_)));
    assert_eq!(b.session, Session::Closed);
    assert_eq!(b.seen, vec![Seen::Closed(DisconnectReason::Timeout)]);
    assert!(!world.server.is_registered(2));

    world.handler.send_message(WebsocketResponseData::Ack("next".to_string())).unwrap();
    let command = world.queue.try_recv().unwrap();
    let done = world.server.handle(command);
    let sent = done.fan_out.unwrap();
    assert_eq!(sent.delivered, vec![1]);
    assert!(sent.dropped.is_empty());
}

#[test]
fn unauthenticated_client_never_reaches_the_broker() {
    let mut world = World::new();
    let mut client = Client { session: Session::new(), inbox: None, seen: vec![] };
    world.feed(&mut client, Event::Upgraded);
    world.feed(&mut client, Event::AuthenticationFailed);
    assert_eq!(client.session, Session::Closed);
    assert_eq!(client.seen, vec![Seen::Rejected]);
    assert_eq!(world.server.len(), 0);
    assert!(world.queue.try_recv().is_err());
}
