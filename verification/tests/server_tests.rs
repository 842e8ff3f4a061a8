use looper::reactor::{Callback, Core};
use looper::server::{
    classify_accept, classify_read, classify_write, AcceptAction, AcceptEvent, ReadAction,
    ReadEvent, WebSocketHandler, WebSocketServer, WriteAction, WriteEvent,
};

#[test]
fn start_wires_the_server_to_its_predicted_id() {
    let mut core: Core<String> = Core::new();
    let (server, token) = WebSocketServer::start(&mut core, Callback::new(1));
    let id = core.add(String::from("the server object"));
    assert_eq!(server.object_id(), id, "the server lands under the predicted id");
    assert!(core.has_handler(token));
    assert_eq!(server.connection_count(), 0);
}

#[test]
fn broadcast_queues_on_every_connection() {
    let mut core: Core<String> = Core::new();
    let server_id = core.add(String::from("server"));
    let mut server = WebSocketServer::new(server_id);
    let c1 = core.add(String::from("first connection"));
    let c2 = core.add(String::from("second connection"));
    server.add_connection(c1);
    server.add_connection(c2);
    server.broadcast(String::from("ping"));
    // Both write-pending queues hold the message; the next writable edge
    // flushes each queue whole.
    let flushed1 = server.take_pending(c1).expect("first connection is kept");
    let flushed2 = server.take_pending(c2).expect("second connection is kept");
    assert_eq!(flushed1, vec![String::from("ping")]);
    assert_eq!(flushed2, vec![String::from("ping")]);
    // Flushing drained the queues.
    assert_eq!(server.take_pending(c1).expect("still kept"), Vec::<String>::new());
    assert_eq!(server.take_pending(c2).expect("still kept"), Vec::<String>::new());
}

#[test]
fn broadcasts_accumulate_in_order() {
    let mut core: Core<String> = Core::new();
    let server_id = core.add(String::from("server"));
    let mut server = WebSocketServer::new(server_id);
    let c1 = core.add(String::from("connection"));
    server.add_connection(c1);
    server.broadcast(String::from("one"));
    server.broadcast(String::from("two"));
    let flushed = server.take_pending(c1).expect("kept");
    assert_eq!(flushed, vec![String::from("one"), String::from("two")]);
}

#[test]
fn removed_connection_gets_no_broadcast() {
    let mut core: Core<String> = Core::new();
    let server_id = core.add(String::from("server"));
    let mut server = WebSocketServer::new(server_id);
    let c1 = core.add(String::from("a"));
    let c2 = core.add(String::from("b"));
    server.add_connection(c1);
    server.add_connection(c2);
    assert!(server.remove_connection(c1));
    assert!(!server.remove_connection(c1), "already gone");
    server.broadcast(String::from("ping"));
    assert!(server.take_pending(c1).is_none());
    assert_eq!(server.take_pending(c2).expect("kept"), vec![String::from("ping")]);
    assert_eq!(server.connection_count(), 1);
}

#[test]
fn read_outcomes_map_to_the_loop_actions() {
    assert_eq!(classify_read(ReadEvent::Closed), ReadAction::RemoveAndStop);
    assert_eq!(classify_read(ReadEvent::IoWouldBlock), ReadAction::Stop);
    assert_eq!(classify_read(ReadEvent::IoFailed), ReadAction::RemoveAndStop);
    assert_eq!(classify_read(ReadEvent::ProtocolFailed), ReadAction::KeepDraining);
    assert_eq!(
        classify_read(ReadEvent::Text(String::from("hi"))),
        ReadAction::Deliver(String::from("hi"))
    );
    assert_eq!(classify_read(ReadEvent::NonText), ReadAction::KeepDraining);
}

#[test]
fn write_outcomes_map_to_the_loop_actions() {
    assert_eq!(classify_write(WriteEvent::Flushed), WriteAction::Keep);
    assert_eq!(classify_write(WriteEvent::IoWouldBlock), WriteAction::Keep);
    assert_eq!(classify_write(WriteEvent::IoFailed), WriteAction::Remove);
    assert_eq!(classify_write(WriteEvent::Closed), WriteAction::Remove);
    assert_eq!(classify_write(WriteEvent::OtherFailed), WriteAction::Keep);
}

#[test]
fn accept_outcomes_map_to_the_loop_actions() {
    assert_eq!(classify_accept(AcceptEvent::Accepted), AcceptAction::Handshake);
    assert_eq!(classify_accept(AcceptEvent::IoWouldBlock), AcceptAction::Stop);
    assert_eq!(classify_accept(AcceptEvent::Failed), AcceptAction::RemoveAndStop);
}

struct Greeter;

impl WebSocketHandler<String> for Greeter {
    fn welcome_message(&mut self, _core: &mut Core<String>) -> Option<String> {
        Some(String::from("welcome"))
    }
}

#[test]
fn handler_defaults_accept_and_stay_silent() {
    let mut core: Core<String> = Core::new();
    let mut greeter = Greeter;
    assert!(greeter.acceptable("127.0.0.1:9000"));
    assert_eq!(greeter.welcome_message(&mut core), Some(String::from("welcome")));
    assert_eq!(greeter.handle_message(String::from("hi"), &mut core), None);
}
