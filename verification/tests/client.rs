use msger::client::{check_response, envelope_of, ClientMessage};
use msger::crypt::make_challenge;
use msger::error::ClientError;
use msger::frame::Frame;
use msger::handshake::Header;
use msger::messages::{MessageContents, ServerMessage};
use msger::worker::{
    echo_of, on_command, on_outcome, ChatWorker, ClientCommand, CommandAction, ConnectionState,
    Outcome, WorkerStep,
};

fn field(name: &str, value: &str) -> Header {
    Header { name: String::from(name), value: String::from(value) }
}

#[test]
fn client_message_builders() {
    assert_eq!(ClientMessage::disconnect_message(), ClientMessage::Disconnect);
    assert_eq!(ClientMessage::text("hi"), ClientMessage::Text(String::from("hi")));
    assert_eq!(
        ClientMessage::file("a.txt", vec![1, 2]),
        ClientMessage::File(String::from("a.txt"), vec![1, 2])
    );
}

#[test]
fn text_travels_as_one_text_frame() {
    assert_eq!(
        ClientMessage::text("hi").into_frames(),
        vec![Frame::Text(String::from("hi"))]
    );
}

#[test]
fn file_travels_as_bytes_then_name() {
    assert_eq!(
        ClientMessage::file("a.txt", vec![9, 8]).into_frames(),
        vec![Frame::Binary(vec![9, 8]), Frame::Text(String::from("a.txt"))]
    );
}

#[test]
fn disconnect_travels_as_a_close_frame() {
    assert_eq!(ClientMessage::Disconnect.into_frames(), vec![Frame::Close]);
}

#[test]
fn only_text_frames_carry_an_envelope() {
    assert_eq!(envelope_of(Frame::Text(String::from("{}"))), Ok(String::from("{}")));
    assert_eq!(envelope_of(Frame::Binary(vec![1])), Err(ClientError::IncomingMessageFormat));
    assert_eq!(envelope_of(Frame::Close), Err(ClientError::IncomingMessageFormat));
    assert_eq!(envelope_of(Frame::Other), Err(ClientError::IncomingMessageFormat));
}

#[test]
fn response_without_challenge_passes() {
    let headers = vec![field("upgrade", "websocket")];
    assert_eq!(check_response(&headers, &None), Ok(()));
    assert_eq!(check_response(&headers, &Some(String::from("pw"))), Ok(()));
    assert_eq!(check_response(&Vec::new(), &None), Ok(()));
}

#[test]
fn response_with_plain_challenge_passes_without_password() {
    let headers = vec![field("upgrade", "websocket"), field("msger_crypt", "RGVjcnlwdCBtZQ==")];
    assert_eq!(check_response(&headers, &None), Ok(()));
    assert_eq!(
        check_response(&headers, &Some(String::from("pw"))),
        Err(ClientError::BadPassword)
    );
}

#[test]
fn response_with_sealed_challenge_needs_the_secret() {
    let secret = Some(String::from("pw"));
    let challenge = make_challenge(&secret).unwrap();
    let headers = vec![field("Msger_Crypt", &challenge)];
    assert_eq!(check_response(&headers, &secret), Ok(()));
    assert_eq!(check_response(&headers, &None), Err(ClientError::BadPassword));
    assert_eq!(
        check_response(&headers, &Some(String::from("other"))),
        Err(ClientError::BadPassword)
    );
}

#[test]
fn first_challenge_that_fails_decides() {
    let headers = vec![
        field("msger_crypt", "RGVjcnlwdCBtZQ=="),
        field("msger_crypt", "aGVsbG8="),
        field("msger_crypt", "%%%"),
    ];
    assert_eq!(check_response(&headers, &None), Err(ClientError::BadPassword));
    let headers = vec![
        field("msger_crypt", "RGVjcnlwdCBtZQ=="),
        field("msger_crypt", "%%%"),
        field("msger_crypt", "aGVsbG8="),
    ];
    assert!(matches!(
        check_response(&headers, &None),
        Err(ClientError::PasswordErrorBase64(_))
    ));
}

#[test]
fn echo_is_the_own_message_or_the_local_notice() {
    assert_eq!(
        echo_of("alice", &ClientMessage::text("hi")),
        ServerMessage::text("alice", "hi")
    );
    assert_eq!(
        echo_of("alice", &ClientMessage::file("f", vec![1])),
        ServerMessage::file("alice", "f", vec![1])
    );
    assert_eq!(echo_of("alice", &ClientMessage::Disconnect), ServerMessage::disconnect_message());
}

#[test]
fn chat_worker_sends_until_the_session_is_left() {
    let mut worker = ChatWorker::new(String::from("alice"));
    assert!(!worker.is_disconnected());
    assert_eq!(
        worker.on_request(ClientMessage::text("one")),
        WorkerStep::Send {
            request: ClientMessage::text("one"),
            echo: ServerMessage::text("alice", "one"),
        }
    );
    assert_eq!(
        worker.on_request(ClientMessage::file("f.bin", vec![1, 2])),
        WorkerStep::Send {
            request: ClientMessage::file("f.bin", vec![1, 2]),
            echo: ServerMessage::file("alice", "f.bin", vec![1, 2]),
        }
    );
    assert!(!worker.is_disconnected());
    assert_eq!(
        worker.on_request(ClientMessage::Disconnect),
        WorkerStep::Send {
            request: ClientMessage::Disconnect,
            echo: ServerMessage {
                author: String::from("server"),
                contents: MessageContents::Text(String::from("You have been disconnected...")),
            },
        }
    );
    assert!(worker.is_disconnected());
    assert_eq!(worker.on_request(ClientMessage::text("late")), WorkerStep::Stop);
    assert_eq!(worker.on_request(ClientMessage::Disconnect), WorkerStep::Stop);
    assert!(worker.is_disconnected());
}

#[test]
fn idle_worker_only_connects() {
    let connect = ClientCommand::Connect(
        String::from("alice"),
        String::from("pw"),
        String::from("ws://localhost:2004"),
    );
    assert_eq!(
        on_command(ConnectionState::Idle, connect),
        CommandAction::Connect {
            username: String::from("alice"),
            maybe_password: Some(String::from("pw")),
            server_address: String::from("ws://localhost:2004"),
        }
    );
    assert_eq!(
        on_command(ConnectionState::Idle, ClientCommand::SendMessage(String::from("x"))),
        CommandAction::Ignore
    );
    assert_eq!(
        on_command(ConnectionState::Idle, ClientCommand::SendFile(String::from("f"), vec![1])),
        CommandAction::Ignore
    );
    assert_eq!(on_command(ConnectionState::Idle, ClientCommand::Disconnect), CommandAction::Ignore);
}

#[test]
fn empty_password_means_none() {
    let connect =
        ClientCommand::Connect(String::from("alice"), String::new(), String::from("ws://h"));
    assert_eq!(
        on_command(ConnectionState::Idle, connect),
        CommandAction::Connect {
            username: String::from("alice"),
            maybe_password: None,
            server_address: String::from("ws://h"),
        }
    );
}

#[test]
fn connected_worker_sends_and_echoes_under_its_own_label() {
    assert_eq!(
        on_command(ConnectionState::Connected, ClientCommand::SendMessage(String::from("hi"))),
        CommandAction::Send {
            request: ClientMessage::text("hi"),
            echo: ServerMessage::text("You", "hi"),
        }
    );
    assert_eq!(
        on_command(
            ConnectionState::Connected,
            ClientCommand::SendFile(String::from("f"), vec![4, 5])
        ),
        CommandAction::Send {
            request: ClientMessage::file("f", vec![4, 5]),
            echo: ServerMessage::file("You", "f", vec![4, 5]),
        }
    );
    assert_eq!(
        on_command(ConnectionState::Connected, ClientCommand::Disconnect),
        CommandAction::Disconnect
    );
    let connect = ClientCommand::Connect(String::from("a"), String::from("b"), String::from("c"));
    assert_eq!(on_command(ConnectionState::Connected, connect), CommandAction::Ignore);
}

#[test]
fn session_stays_open_until_something_fails_or_the_user_leaves() {
    let idle = ConnectionState::Idle;
    let connected = ConnectionState::Connected;
    assert_eq!(on_outcome(idle, Outcome::ConnectSucceeded), connected);
    assert_eq!(on_outcome(idle, Outcome::ConnectFailed), idle);
    assert_eq!(on_outcome(connected, Outcome::Received), connected);
    assert_eq!(on_outcome(connected, Outcome::Sent), connected);
    assert_eq!(on_outcome(connected, Outcome::ReceiveFailed), idle);
    assert_eq!(on_outcome(connected, Outcome::SendFailed), idle);
    assert_eq!(on_outcome(connected, Outcome::Left), idle);
    assert_eq!(on_outcome(idle, Outcome::Left), idle);
}
