//! The decisions of the two background workers of a client.
//!
//! The chat worker takes the requests of the chat page one by one, has each
//! sent, and hands back what the page is to show for it. The connection
//! worker keeps one session open or none, and turns the commands of the
//! front end into what is to be done with that session. Both are written as
//! steps from a state and an input to the next state and an instruction;
//! whoever runs them does the waiting and the sending.

use crate::client::{optional_password, ClientMessage, ClientMessageView};
use crate::messages::{
    local_notice_text, system_author, ContentsView, MessageView, ServerMessage,
};
use vstd::prelude::*;

verus! {

/// What a client shows itself for a request that was sent: its own message
/// under its own name, or the system's notice once it has left.
pub open spec fn local_echo(username: Seq<char>, request: ClientMessageView) -> MessageView {
    match request {
        ClientMessageView::Text(text) => MessageView {
            author: username,
            contents: ContentsView::Text(text),
        },
        ClientMessageView::File(name, bytes) => MessageView {
            author: username,
            contents: ContentsView::File { name, contents: bytes },
        },
        ClientMessageView::Disconnect => MessageView {
            author: system_author(),
            contents: ContentsView::Text(local_notice_text()),
        },
    }
}

/// Builds the message that the client shows itself for `request`.
pub fn echo_of(username: &str, request: &ClientMessage) -> (echo: ServerMessage)
    ensures
        echo@ == local_echo(username@, request@),
{
    match request {
        ClientMessage::Text(text) => ServerMessage::text(username, text.as_str()),
        ClientMessage::File(name, bytes) => {
            let copy = bytes.clone();
            assert(copy@ =~= bytes@);
            ServerMessage::file(username, name.as_str(), copy)
        },
        ClientMessage::Disconnect => ServerMessage::disconnect_message(),
    }
}

/// The chat worker of one session.
#[derive(Debug, PartialEq, Eq)]
pub struct ChatWorker {
    username: String,
    disconnected: bool,
}

/// Mathematical model of a [`ChatWorker`].
pub struct ChatWorkerView {
    pub username: Seq<char>,
    pub disconnected: bool,
}

impl View for ChatWorker {
    type V = ChatWorkerView;

    closed spec fn view(&self) -> ChatWorkerView {
        ChatWorkerView { username: self.username@, disconnected: self.disconnected }
    }
}

/// What the chat worker is to do with a request.
#[derive(Debug, PartialEq, Eq)]
pub enum WorkerStep {
    /// Send `request`; if that succeeds, show `echo`.
    Send { request: ClientMessage, echo: ServerMessage },
    /// The session was left before: stop, and tell the page to reset.
    Stop,
}

impl ChatWorker {
    /// The worker of a session that was opened as `username`.
    pub fn new(username: String) -> (worker: Self)
        ensures
            worker@ == (ChatWorkerView { username: username@, disconnected: false }),
    {
        ChatWorker { username, disconnected: false }
    }

    /// Whether the session was left.
    pub fn is_disconnected(&self) -> (left: bool)
        ensures
            left == self@.disconnected,
    {
        self.disconnected
    }

    /// Takes the next request of the page.
    ///
    /// Until the session is left, every request is to be sent as it is, and
    /// its echo is the page's own message. A disconnect is sent like any other
    /// request and marks the session as left, whether or not sending it
    /// succeeds; the request after it stops the worker.
    pub fn on_request(&mut self, request: ClientMessage) -> (step: WorkerStep)
        ensures
            final(self)@.username == old(self)@.username,
            old(self)@.disconnected ==> step is Stop && final(self)@.disconnected,
            !old(self)@.disconnected ==> {
                &&& step matches WorkerStep::Send { request: sent, echo }
                &&& sent == request
                &&& echo@ == local_echo(old(self)@.username, request@)
                &&& final(self)@.disconnected == (request is Disconnect)
            },
    {
        if self.disconnected {
            return WorkerStep::Stop;
        }
        let echo = echo_of(self.username.as_str(), &request);
        match request {
            ClientMessage::Disconnect => {
                self.disconnected = true;
            },
            _ => {},
        }
        WorkerStep::Send { request, echo }
    }
}

/// What the front end can ask of the connection worker.
#[derive(Debug, PartialEq, Eq)]
pub enum ClientCommand {
    /// Open a session: user name, password (empty for none), server address.
    Connect(String, String, String),
    /// Send a line of text.
    SendMessage(String),
    /// Send a file: its name and its bytes.
    SendFile(String, Vec<u8>),
    /// Leave the session.
    Disconnect,
}

/// Whether the connection worker has a session open.
#[derive(Clone, Copy, Debug, PartialEq, Eq, Structural)]
pub enum ConnectionState {
    Idle,
    Connected,
}

/// What the connection worker is to do for a command.
#[derive(Debug, PartialEq, Eq)]
pub enum CommandAction {
    /// Nothing: the command does not apply in this state.
    Ignore,
    /// Open a session.
    Connect { username: String, maybe_password: Option<String>, server_address: String },
    /// Send `request` over the open session; if that succeeds, show `echo`.
    Send { request: ClientMessage, echo: ServerMessage },
    /// Leave the session and show the login view.
    Disconnect,
}

/// The name under which the front end shows the user's own messages.
pub open spec fn own_author() -> Seq<char> {
    "You"@
}

/// Turns a command of the front end into what is to be done.
///
/// Without a session only a connect applies; an empty password means none.
/// With a session a connect is ignored, a message or a file is sent and
/// echoed under the user's own label, and a disconnect is carried out.
pub fn on_command(state: ConnectionState, command: ClientCommand) -> (action: CommandAction)
    ensures
        match (state, command) {
            (ConnectionState::Idle, ClientCommand::Connect(username, password, server_address)) => {
                &&& action matches CommandAction::Connect {
                    username: user,
                    maybe_password: secret,
                    server_address: address,
                }
                &&& user == username
                &&& address == server_address
                &&& secret == if password@.len() == 0 {
                    None
                } else {
                    Some(password)
                }
            },
            (ConnectionState::Idle, _) => action is Ignore,
            (ConnectionState::Connected, ClientCommand::Connect(_, _, _)) => action is Ignore,
            (ConnectionState::Connected, ClientCommand::SendMessage(text)) => {
                &&& action matches CommandAction::Send { request, echo }
                &&& request == ClientMessage::Text(text)
                &&& echo@ == local_echo(own_author(), request@)
            },
            (ConnectionState::Connected, ClientCommand::SendFile(name, bytes)) => {
                &&& action matches CommandAction::Send { request, echo }
                &&& request == ClientMessage::File(name, bytes)
                &&& echo@ == local_echo(own_author(), request@)
            },
            (ConnectionState::Connected, ClientCommand::Disconnect) => action is Disconnect,
        },
{
    match state {
        ConnectionState::Idle => match command {
            ClientCommand::Connect(username, password, server_address) => {
                let maybe_password = optional_password(password);
                CommandAction::Connect { username, maybe_password, server_address }
            },
            _ => CommandAction::Ignore,
        },
        ConnectionState::Connected => match command {
            ClientCommand::SendMessage(text) => {
                let request = ClientMessage::Text(text);
                let echo = echo_of("You", &request);
                CommandAction::Send { request, echo }
            },
            ClientCommand::SendFile(name, bytes) => {
                let request = ClientMessage::File(name, bytes);
                let echo = echo_of("You", &request);
                CommandAction::Send { request, echo }
            },
            ClientCommand::Disconnect => CommandAction::Disconnect,
            ClientCommand::Connect(_, _, _) => CommandAction::Ignore,
        },
    }
}

/// How something that the connection worker undertook ended.
#[derive(Clone, Copy, Debug, PartialEq, Eq, Structural)]
pub enum Outcome {
    /// A session was opened.
    ConnectSucceeded,
    /// No session could be opened.
    ConnectFailed,
    /// A message of the server arrived.
    Received,
    /// The session reported an error in place of a message.
    ReceiveFailed,
    /// A request was sent.
    Sent,
    /// A request could not be sent.
    SendFailed,
    /// The session was left, cleanly or not.
    Left,
}

/// The state of the connection worker after an outcome: a session is open
/// after a successful connect and for as long as nothing fails and the user
/// does not leave.
pub open spec fn state_after(state: ConnectionState, outcome: Outcome) -> ConnectionState {
    match outcome {
        Outcome::ConnectSucceeded => ConnectionState::Connected,
        Outcome::Received | Outcome::Sent => state,
        Outcome::ConnectFailed | Outcome::ReceiveFailed | Outcome::SendFailed | Outcome::Left =>
            ConnectionState::Idle,
    }
}

/// The state of the connection worker after an outcome.
pub fn on_outcome(state: ConnectionState, outcome: Outcome) -> (next: ConnectionState)
    ensures
        next == state_after(state, outcome),
{
    match outcome {
        Outcome::ConnectSucceeded => ConnectionState::Connected,
        Outcome::Received | Outcome::Sent => state,
        Outcome::ConnectFailed | Outcome::ReceiveFailed | Outcome::SendFailed | Outcome::Left =>
            ConnectionState::Idle,
    }
}

} // verus!
