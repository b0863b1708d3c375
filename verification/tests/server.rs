use msger::address::{Address, IpAddress};
use msger::config::{default_ip, default_message_timout, default_port, ServerConfig};
use msger::crypt::verify_challenge;
use msger::error::{ConnectionFault, HandshakeRejected};
use msger::frame::Frame;
use msger::handshake::{HandshakeFailure, Header};
use msger::messages::ServerMessage;
use msger::relay::{Action, Event, Phase, Relay};
use msger::server::{Reception, Server};

fn config(banned: Vec<IpAddress>, auth: Option<&str>) -> ServerConfig {
    ServerConfig {
        banned_users: banned,
        auth: auth.map(String::from),
        allow_files: true,
        message_timeout: default_message_timout(),
        ip_addr: default_ip(),
        port: default_port(),
    }
}

fn peer(last: u32) -> Address {
    Address::V4 { ip: 0xc0a8_0000 + last, port: 5000 }
}

fn join(server: &mut Server<String>, last: u32, name: &str) -> Relay {
    match server.receive(peer(last), String::from(name), format!("sink of {}", name)) {
        Reception::Admitted(relay) => relay,
        Reception::Rejected(reason, _) => panic!("{} was rejected: {:?}", name, reason),
    }
}

fn delivered_to(server: &Server<String>, origin: &Address) -> Vec<String> {
    let mut sinks = Vec::new();
    for session in server.recipients(origin) {
        sinks.push(session.outbound.clone());
    }
    sinks
}

#[test]
fn new_server_has_nobody_connected() {
    let server: Server<String> = Server::new(config(Vec::new(), None));
    assert_eq!(server.session_count(), 0);
    assert_eq!(server.config().port, 2004);
    assert!(server.recipients(&peer(1)).is_empty());
}

#[test]
fn server_answers_a_request_under_its_secret() {
    let server: Server<String> = Server::new(config(Vec::new(), Some("hunter2")));
    let headers =
        vec![Header { name: String::from("username"), value: String::from("alice") }];
    let accepted = server.handshake(&headers).unwrap();
    assert_eq!(accepted.display_name, "alice");
    assert_eq!(verify_challenge(&accepted.challenge.value, &Some(String::from("hunter2"))), Ok(()));
    let headers =
        vec![Header { name: String::from("username"), value: String::from("Server") }];
    assert!(matches!(
        server.handshake(&headers),
        Err(HandshakeFailure::Rejected(HandshakeRejected::ReservedIdentity))
    ));
}

#[test]
fn admitted_connection_starts_a_listening_relay() {
    let mut server = Server::new(config(Vec::new(), None));
    let relay = join(&mut server, 1, "alice");
    assert_eq!(relay.display_name(), "alice");
    assert_eq!(relay.phase(), &Phase::Listening);
    assert_eq!(server.session_count(), 1);
}

#[test]
fn second_connection_from_an_address_is_rejected_and_the_first_stays() {
    let mut server = Server::new(config(Vec::new(), None));
    let _alice = join(&mut server, 1, "alice");
    let _bob = join(&mut server, 2, "bob");
    match server.receive(peer(1), String::from("mallory"), String::from("other sink")) {
        Reception::Rejected(reason, sink) => {
            assert_eq!(reason, HandshakeRejected::DuplicateAddress);
            assert_eq!(sink, "other sink");
        }
        Reception::Admitted(_) => panic!("a duplicate was admitted"),
    }
    assert_eq!(server.session_count(), 2);
    assert_eq!(delivered_to(&server, &peer(2)), vec!["sink of alice"]);
}

#[test]
fn banned_peer_is_rejected() {
    let mut server = Server::new(config(vec![IpAddress::V4(0xc0a8_0003)], None));
    match server.receive(peer(3), String::from("eve"), String::from("sink")) {
        Reception::Rejected(reason, sink) => {
            assert_eq!(reason, HandshakeRejected::Banned);
            assert_eq!(sink, "sink");
        }
        Reception::Admitted(_) => panic!("a banned peer was admitted"),
    }
    assert_eq!(server.session_count(), 0);
}

#[test]
fn message_goes_to_the_other_sessions_only() {
    let mut server = Server::new(config(Vec::new(), None));
    let mut relays = vec![
        join(&mut server, 1, "alice"),
        join(&mut server, 2, "bob"),
        join(&mut server, 3, "carol"),
        join(&mut server, 4, "dave"),
    ];
    let action = server.on_event(
        &peer(2),
        &mut relays[1],
        Event::Frame(Frame::Text(String::from("hello all"))),
    );
    assert_eq!(action, Action::Relay(ServerMessage::text("bob", "hello all")));
    assert_eq!(server.session_count(), 4);
    assert_eq!(
        delivered_to(&server, &peer(2)),
        vec!["sink of alice", "sink of carol", "sink of dave"]
    );
}

#[test]
fn file_is_relayed_once_both_frames_are_in() {
    let mut server = Server::new(config(Vec::new(), None));
    let mut alice = join(&mut server, 1, "alice");
    let _bob = join(&mut server, 2, "bob");
    let first = server.on_event(&peer(1), &mut alice, Event::Frame(Frame::Binary(vec![1, 2, 3])));
    assert_eq!(first, Action::Continue);
    let second =
        server.on_event(&peer(1), &mut alice, Event::Frame(Frame::Text(String::from("name.txt"))));
    assert_eq!(second, Action::Relay(ServerMessage::file("alice", "name.txt", vec![1, 2, 3])));
    assert_eq!(server.session_count(), 2);
    assert_eq!(delivered_to(&server, &peer(1)), vec!["sink of bob"]);
}

#[test]
fn lone_binary_frame_drops_the_session_and_relays_nothing() {
    let mut server = Server::new(config(Vec::new(), None));
    let mut alice = join(&mut server, 1, "alice");
    let _bob = join(&mut server, 2, "bob");
    let first = server.on_event(&peer(1), &mut alice, Event::Frame(Frame::Binary(vec![1, 2, 3])));
    assert_eq!(first, Action::Continue);
    let second = server.on_event(&peer(1), &mut alice, Event::Ended);
    assert_eq!(second, Action::Drop(ConnectionFault::ProtocolViolation));
    assert!(alice.is_closed());
    assert_eq!(server.session_count(), 1);
    assert_eq!(delivered_to(&server, &peer(9)), vec!["sink of bob"]);
}

#[test]
fn disconnect_sequencing() {
    let mut server = Server::new(config(Vec::new(), None));
    let mut alice = join(&mut server, 1, "alice");
    let _bob = join(&mut server, 2, "bob");
    let _carol = join(&mut server, 3, "carol");
    let action = server.on_event(&peer(1), &mut alice, Event::Frame(Frame::Close));
    assert_eq!(action, Action::Farewell(ServerMessage::text("server", "alice has disconnected")));
    assert_eq!(server.session_count(), 2);
    assert_eq!(delivered_to(&server, &peer(1)), vec!["sink of bob", "sink of carol"]);
    assert_eq!(delivered_to(&server, &peer(9)), vec!["sink of bob", "sink of carol"]);
    let late = server.on_event(&peer(1), &mut alice, Event::Frame(Frame::Text(String::from("x"))));
    assert_eq!(late, Action::Finished);
    assert_eq!(server.session_count(), 2);
}

#[test]
fn transport_failure_drops_only_the_failing_session() {
    let mut server = Server::new(config(Vec::new(), None));
    let _alice = join(&mut server, 1, "alice");
    let mut bob = join(&mut server, 2, "bob");
    let action = server.on_event(&peer(2), &mut bob, Event::Ended);
    assert_eq!(action, Action::Drop(ConnectionFault::TransportError));
    assert_eq!(server.session_count(), 1);
    assert_eq!(delivered_to(&server, &peer(2)), vec!["sink of alice"]);
}

#[test]
fn address_is_free_again_after_the_session_has_left() {
    let mut server = Server::new(config(Vec::new(), None));
    let mut alice = join(&mut server, 1, "alice");
    let _ = server.on_event(&peer(1), &mut alice, Event::Frame(Frame::Close));
    let again = join(&mut server, 1, "alice again");
    assert_eq!(again.display_name(), "alice again");
    assert_eq!(server.session_count(), 1);
}

#[test]
fn sessions_whose_connection_failed_are_dropped_and_the_rest_stay() {
    let mut server = Server::new(config(Vec::new(), None));
    let _alice = join(&mut server, 1, "alice");
    let _bob = join(&mut server, 2, "bob");
    let _carol = join(&mut server, 3, "carol");
    let _dave = join(&mut server, 4, "dave");
    server.drop_failed(&vec![peer(4), peer(2), peer(7), peer(2)]);
    assert_eq!(server.session_count(), 2);
    assert_eq!(delivered_to(&server, &peer(9)), vec!["sink of alice", "sink of carol"]);
    server.drop_failed(&Vec::new());
    assert_eq!(delivered_to(&server, &peer(9)), vec!["sink of alice", "sink of carol"]);
    server.drop_failed(&vec![peer(1), peer(3)]);
    assert_eq!(server.session_count(), 0);
}
