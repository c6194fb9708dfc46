use chat_gateway::broker::{Command, FanOut, Handled, WebsocketServer, WebsocketServerHandler};
use chat_gateway::models::{MessageResponse, Timestamp};
use chat_gateway::protocol::WebsocketResponseData;
use tokio::sync::mpsc::error::TryRecvError;
use tokio::sync::mpsc::{unbounded_channel, UnboundedReceiver};

fn ack(text: &str) -> WebsocketResponseData {
    WebsocketResponseData::Ack(text.to_string())
}

fn chat(id: i32, content: &str) -> WebsocketResponseData {
    WebsocketResponseData::Message(MessageResponse {
        id,
        author_id: 1,
        author: "ann".to_string(),
        content: content.to_string(),
        attachments: vec![],
        created_date: Timestamp { seconds: 1_700_000_000, nanoseconds: 0 },
        updated_date: Timestamp { seconds: 1_700_000_000, nanoseconds: 0 },
    })
}

/// Takes every queued command off the queue and lets the broker handle it.
fn pump(server: &mut WebsocketServer, queue: &mut UnboundedReceiver<Command>) -> Vec<Handled> {
    let mut done = Vec::new();
    while let Ok(command) = queue.try_recv() {
        done.push(server.handle(command));
    }
    done
}

fn sorted(mut ids: Vec<usize>) -> Vec<usize> {
    ids.sort();
    ids
}

fn connect(
    server: &mut WebsocketServer,
    handler: &WebsocketServerHandler,
    queue: &mut UnboundedReceiver<Command>,
    id: usize,
) -> UnboundedReceiver<WebsocketResponseData> {
    let (tx, rx) = unbounded_channel();
    let mut waiting = handler.connect(id, tx).expect("the broker's queue is open");
    assert!(waiting.try_recv().is_err());
    let done = pump(server, queue);
    assert_eq!(done.len(), 1);
    assert!(done[0].acknowledged);
    assert_eq!(waiting.try_recv(), Ok(()));
    rx
}

#[test]
fn new_broker_is_empty() {
    let (server, _handler, _queue) = WebsocketServer::new();
    assert_eq!(server.len(), 0);
    assert!(!server.is_registered(0));
}

#[test]
fn connect_registers_and_announces_to_all_including_the_new_one() {
    let (mut server, handler, mut queue) = WebsocketServer::new();
    let mut a = connect(&mut server, &handler, &mut queue, 1);
    assert_eq!(server.len(), 1);
    assert!(server.is_registered(1));
    assert_eq!(a.try_recv(), Ok(ack("Someone has joined")));
    assert_eq!(a.try_recv(), Err(TryRecvError::Empty));

    let mut b = connect(&mut server, &handler, &mut queue, 2);
    assert_eq!(server.len(), 2);
    assert_eq!(a.try_recv(), Ok(ack("Someone has joined")));
    assert_eq!(a.try_recv(), Err(TryRecvError::Empty));
    assert_eq!(b.try_recv(), Ok(ack("Someone has joined")));
    assert_eq!(b.try_recv(), Err(TryRecvError::Empty));
}

#[test]
fn connect_reports_its_fan_out() {
    let (mut server, handler, mut queue) = WebsocketServer::new();
    let _a = connect(&mut server, &handler, &mut queue, 7);
    let (tx, _b) = unbounded_channel();
    handler.connect(9, tx).unwrap();
    let done = pump(&mut server, &mut queue);
    let notice = done[0].fan_out.as_ref().expect("a connect announces");
    assert_eq!(notice.event, ack("Someone has joined"));
    assert_eq!(sorted(notice.delivered.clone()), vec![7, 9]);
    assert!(notice.dropped.is_empty());
}

#[test]
fn disconnect_removes_and_tells_the_rest() {
    let (mut server, handler, mut queue) = WebsocketServer::new();
    let mut a = connect(&mut server, &handler, &mut queue, 1);
    let mut b = connect(&mut server, &handler, &mut queue, 2);
    while a.try_recv().is_ok() {}
    while b.try_recv().is_ok() {}

    let mut waiting = handler.disconnect(2).unwrap();
    let done = pump(&mut server, &mut queue);
    assert_eq!(waiting.try_recv(), Ok(()));
    assert_eq!(server.len(), 1);
    assert!(server.is_registered(1));
    assert!(!server.is_registered(2));
    let notice = done[0].fan_out.as_ref().expect("a removal is announced");
    assert_eq!(notice.event, ack("User Removed"));
    assert_eq!(notice.delivered, vec![1]);
    assert!(notice.dropped.is_empty());
    assert_eq!(a.try_recv(), Ok(ack("User Removed")));
    assert_eq!(a.try_recv(), Err(TryRecvError::Empty));
    assert_eq!(b.try_recv(), Err(TryRecvError::Disconnected));
}

#[test]
fn disconnect_of_a_stranger_changes_nothing_and_is_acknowledged() {
    let (mut server, handler, mut queue) = WebsocketServer::new();
    let mut a = connect(&mut server, &handler, &mut queue, 1);
    while a.try_recv().is_ok() {}

    let mut waiting = handler.disconnect(5).unwrap();
    let done = pump(&mut server, &mut queue);
    assert!(done[0].fan_out.is_none());
    assert!(done[0].acknowledged);
    assert_eq!(waiting.try_recv(), Ok(()));
    assert_eq!(server.len(), 1);
    assert_eq!(a.try_recv(), Err(TryRecvError::Empty));
}

#[test]
fn disconnect_twice_is_safe() {
    let (mut server, handler, mut queue) = WebsocketServer::new();
    let mut a = connect(&mut server, &handler, &mut queue, 1);
    let _b = connect(&mut server, &handler, &mut queue, 2);
    while a.try_recv().is_ok() {}

    let mut first = handler.disconnect(2).unwrap();
    let mut second = handler.disconnect(2).unwrap();
    let done = pump(&mut server, &mut queue);
    assert_eq!(first.try_recv(), Ok(()));
    assert_eq!(second.try_recv(), Ok(()));
    assert_eq!(done.len(), 2);
    assert!(done[0].fan_out.is_some());
    assert!(done[1].fan_out.is_none());
    assert!(done[1].acknowledged);
    assert_eq!(server.len(), 1);
    assert_eq!(a.try_recv(), Ok(ack("User Removed")));
    assert_eq!(a.try_recv(), Err(TryRecvError::Empty));
}

#[test]
fn broadcast_reaches_every_member_once() {
    let (mut server, handler, mut queue) = WebsocketServer::new();
    let mut receivers = Vec::new();
    for id in 0..5 {
        receivers.push(connect(&mut server, &handler, &mut queue, id));
    }
    for rx in receivers.iter_mut() {
        while rx.try_recv().is_ok() {}
    }
    let mut waiting = handler.send_message(chat(41, "hello")).unwrap();
    let done = pump(&mut server, &mut queue);
    assert_eq!(waiting.try_recv(), Ok(()));
    let sent = done[0].fan_out.as_ref().unwrap();
    assert_eq!(sent.event, chat(41, "hello"));
    assert_eq!(sorted(sent.delivered.clone()), vec![0, 1, 2, 3, 4]);
    assert!(sent.dropped.is_empty());
    for rx in receivers.iter_mut() {
        assert_eq!(rx.try_recv(), Ok(chat(41, "hello")));
        assert_eq!(rx.try_recv(), Err(TryRecvError::Empty));
    }
    assert_eq!(server.len(), 5);
}

#[test]
fn broadcast_passes_over_a_dead_receiver_and_keeps_it_registered() {
    let (mut server, handler, mut queue) = WebsocketServer::new();
    let mut a = connect(&mut server, &handler, &mut queue, 1);
    let b = connect(&mut server, &handler, &mut queue, 2);
    let mut c = connect(&mut server, &handler, &mut queue, 3);
    while a.try_recv().is_ok() {}
    while c.try_recv().is_ok() {}
    drop(b);

    handler.send_message(ack("news")).unwrap();
    let done = pump(&mut server, &mut queue);
    let sent = done[0].fan_out.as_ref().unwrap();
    assert_eq!(sorted(sent.delivered.clone()), vec![1, 3]);
    assert_eq!(sent.dropped, vec![2]);
    assert_eq!(sent.delivered.len() + sent.dropped.len(), server.len());
    assert_eq!(a.try_recv(), Ok(ack("news")));
    assert_eq!(c.try_recv(), Ok(ack("news")));
    assert!(server.is_registered(2));
    assert_eq!(server.len(), 3);

    handler.disconnect(2).unwrap();
    let done = pump(&mut server, &mut queue);
    let notice = done[0].fan_out.as_ref().unwrap();
    assert_eq!(sorted(notice.delivered.clone()), vec![1, 3]);
    assert!(notice.dropped.is_empty());
    assert!(!server.is_registered(2));
    assert_eq!(server.len(), 2);
}

#[test]
fn broadcast_to_an_empty_registry_delivers_nothing() {
    let (mut server, handler, mut queue) = WebsocketServer::new();
    let mut waiting = handler.send_message(ack("anyone?")).unwrap();
    let done = pump(&mut server, &mut queue);
    let sent = done[0].fan_out.as_ref().unwrap();
    assert!(sent.delivered.is_empty());
    assert!(sent.dropped.is_empty());
    assert!(done[0].acknowledged);
    assert_eq!(waiting.try_recv(), Ok(()));
}

#[test]
fn commands_are_handled_in_the_order_of_their_arrival() {
    let (mut server, handler, mut queue) = WebsocketServer::new();
    let other = handler.clone();
    let (tx, mut a) = unbounded_channel();
    handler.connect(1, tx).unwrap();
    other.send_message(ack("first")).unwrap();
    handler.send_message(ack("second")).unwrap();
    other.disconnect(1).unwrap();
    handler.send_message(ack("third")).unwrap();
    let done = pump(&mut server, &mut queue);
    assert_eq!(done.len(), 5);
    assert_eq!(a.try_recv(), Ok(ack("Someone has joined")));
    assert_eq!(a.try_recv(), Ok(ack("first")));
    assert_eq!(a.try_recv(), Ok(ack("second")));
    assert_eq!(a.try_recv(), Err(TryRecvError::Disconnected));
    assert_eq!(server.len(), 0);
}

#[test]
fn registry_is_what_connects_and_matching_disconnects_leave() {
    let (mut server, handler, mut queue) = WebsocketServer::new();
    let mut kept = Vec::new();
    let (tx, rx) = unbounded_channel();
    kept.push(rx);
    handler.connect(1, tx).unwrap();
    handler.disconnect(2).unwrap();
    let (tx, rx) = unbounded_channel();
    kept.push(rx);
    handler.connect(2, tx).unwrap();
    handler.disconnect(1).unwrap();
    handler.disconnect(1).unwrap();
    let (tx, rx) = unbounded_channel();
    kept.push(rx);
    handler.connect(1, tx).unwrap();
    let (tx, rx) = unbounded_channel();
    kept.push(rx);
    handler.connect(3, tx).unwrap();
    handler.disconnect(3).unwrap();
    pump(&mut server, &mut queue);
    assert!(server.is_registered(1));
    assert!(server.is_registered(2));
    assert!(!server.is_registered(3));
    assert_eq!(server.len(), 2);
}

#[test]
fn acknowledgment_to_a_caller_who_left_is_reported() {
    let (mut server, handler, mut queue) = WebsocketServer::new();
    let waiting = handler.send_message(ack("x")).unwrap();
    drop(waiting);
    let done = pump(&mut server, &mut queue);
    assert!(!done[0].acknowledged);
}

#[test]
fn handle_without_a_broker_gets_its_command_back() {
    let (server, handler, queue) = WebsocketServer::new();
    drop(queue);
    drop(server);
    let (tx, _rx) = unbounded_channel();
    let same = tx.clone();
    match handler.connect(1, tx) {
        Err(Command::Connect { user_id, conn_tx, .. }) => {
            assert_eq!(user_id, 1);
            assert!(conn_tx.same_channel(&same));
        }
        other => panic!("the queue is closed: {:?}", other),
    }
    match handler.disconnect(4) {
        Err(Command::Disconnect { conn, .. }) => assert_eq!(conn, 4),
        other => panic!("the queue is closed: {:?}", other),
    }
    match handler.send_message(ack("x")) {
        Err(Command::Message { msg, .. }) => assert_eq!(msg, ack("x")),
        other => panic!("the queue is closed: {:?}", other),
    }
}

#[test]
fn handle_with_a_broker_gets_a_channel_and_queues_its_command() {
    let (_server, handler, mut queue) = WebsocketServer::new();
    let (tx, _rx) = unbounded_channel();
    let same = tx.clone();
    assert!(handler.connect(3, tx).is_ok());
    assert!(handler.disconnect(5).is_ok());
    assert!(handler.send_message(ack("y")).is_ok());
    match queue.try_recv() {
        Ok(Command::Connect { user_id, conn_tx, .. }) => {
            assert_eq!(user_id, 3);
            assert!(conn_tx.same_channel(&same));
        }
        other => panic!("a connect was queued first: {:?}", other),
    }
    match queue.try_recv() {
        Ok(Command::Disconnect { conn, .. }) => assert_eq!(conn, 5),
        other => panic!("a disconnect was queued second: {:?}", other),
    }
    match queue.try_recv() {
        Ok(Command::Message { msg, .. }) => assert_eq!(msg, ack("y")),
        other => panic!("a message was queued third: {:?}", other),
    }
    assert!(queue.try_recv().is_err());
}

#[test]
fn connect_of_a_key_in_use_replaces_and_is_reported() {
    let (mut server, handler, mut queue) = WebsocketServer::new();
    let (tx, mut first) = unbounded_channel();
    handler.connect(1, tx).unwrap();
    let (tx, mut other) = unbounded_channel();
    handler.connect(2, tx).unwrap();
    let done = pump(&mut server, &mut queue);
    assert!(!done[0].replaced);
    assert!(!done[1].replaced);
    while first.try_recv().is_ok() {}
    while other.try_recv().is_ok() {}

    let (tx, mut second) = unbounded_channel();
    handler.connect(1, tx).unwrap();
    let done = pump(&mut server, &mut queue);
    assert!(done[0].replaced);
    assert_eq!(server.len(), 2);
    assert_eq!(second.try_recv(), Ok(ack("Someone has joined")));
    assert_eq!(other.try_recv(), Ok(ack("Someone has joined")));
    assert_eq!(first.try_recv(), Err(TryRecvError::Disconnected));
}

#[test]
fn only_a_connect_can_replace() {
    let (mut server, handler, mut queue) = WebsocketServer::new();
    let (tx, _a) = unbounded_channel();
    handler.connect(1, tx).unwrap();
    handler.send_message(ack("x")).unwrap();
    handler.disconnect(1).unwrap();
    handler.disconnect(1).unwrap();
    let (tx, _b) = unbounded_channel();
    handler.connect(1, tx).unwrap();
    let done = pump(&mut server, &mut queue);
    assert_eq!(done.len(), 5);
    for handled in done.iter() {
        assert!(!handled.replaced);
    }
}

#[test]
fn fan_out_takes_note_of_each_answer() {
    let mut sent = FanOut::begin(ack("e"));
    assert_eq!(sent.event, ack("e"));
    assert!(sent.delivered.is_empty());
    assert!(sent.dropped.is_empty());
    sent.note(4, true);
    sent.note(9, false);
    sent.note(2, true);
    sent.note(7, false);
    assert_eq!(sent.event, ack("e"));
    assert_eq!(sent.delivered, vec![4, 2]);
    assert_eq!(sent.dropped, vec![9, 7]);
}

#[test]
fn record_of_a_command() {
    let done = Handled::record(None, true, false);
    assert!(done.fan_out.is_none());
    assert!(done.replaced);
    assert!(!done.acknowledged);
    let done = Handled::record(Some(FanOut::begin(ack("e"))), false, true);
    assert_eq!(done.fan_out.unwrap().event, ack("e"));
    assert!(!done.replaced);
    assert!(done.acknowledged);
}

#[test]
fn commands_hold_what_they_were_made_of() {
    let (tx, _rx) = unbounded_channel();
    let same = tx.clone();
    let (res_tx, mut res_rx) = tokio::sync::oneshot::channel();
    match Command::connect(6, tx, res_tx) {
        Command::Connect { user_id, conn_tx, res_tx } => {
            assert_eq!(user_id, 6);
            assert!(conn_tx.same_channel(&same));
            res_tx.send(()).unwrap();
            assert_eq!(res_rx.try_recv(), Ok(()));
        }
        other => panic!("a connect was made: {:?}", other),
    }
    let (res_tx, mut res_rx) = tokio::sync::oneshot::channel();
    match Command::disconnect(8, res_tx) {
        Command::Disconnect { conn, res_tx } => {
            assert_eq!(conn, 8);
            res_tx.send(()).unwrap();
            assert_eq!(res_rx.try_recv(), Ok(()));
        }
        other => panic!("a disconnect was made: {:?}", other),
    }
    let (res_tx, mut res_rx) = tokio::sync::oneshot::channel();
    match Command::message(ack("m"), res_tx) {
        Command::Message { msg, res_tx } => {
            assert_eq!(msg, ack("m"));
            res_tx.send(()).unwrap();
            assert_eq!(res_rx.try_recv(), Ok(()));
        }
        other => panic!("a message was made: {:?}", other),
    }
}
