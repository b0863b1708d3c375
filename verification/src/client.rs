//! The client's side of the protocol: what it sends, and how it reads what
//! the server sends.

use crate::crypt::{challenge_opens, verify_challenge, CRYPT_VALIDATION_KEY};
use crate::base64_serialize::base64_bytes;
use crate::error::ClientError;
use crate::frame::{Frame, FrameView};
use crate::handshake::{Header, HeaderView};
use crate::text::{eq_ignore_ascii_case, same_ignoring_ascii_case};
use vstd::prelude::*;

verus! {

/// What a client can ask to have sent to the server.
#[derive(Debug, PartialEq, Eq)]
pub enum ClientMessage {
    /// A line of text.
    Text(String),
    /// A file: its name and its bytes.
    File(String, Vec<u8>),
    /// The end of the session.
    Disconnect,
}

/// Mathematical model of a [`ClientMessage`].
pub enum ClientMessageView {
    Text(Seq<char>),
    File(Seq<char>, Seq<u8>),
    Disconnect,
}

impl View for ClientMessage {
    type V = ClientMessageView;

    open spec fn view(&self) -> ClientMessageView {
        match self {
            ClientMessage::Text(text) => ClientMessageView::Text(text@),
            ClientMessage::File(name, bytes) => ClientMessageView::File(name@, bytes@),
            ClientMessage::Disconnect => ClientMessageView::Disconnect,
        }
    }
}

/// The frames that carry a message to the server, in the order in which they
/// are sent: a file travels as a binary frame with its bytes, followed at once
/// by a text frame with its name.
pub open spec fn frames_of(message: ClientMessageView) -> Seq<FrameView> {
    match message {
        ClientMessageView::Text(text) => seq![FrameView::Text(text)],
        ClientMessageView::File(name, bytes) => seq![FrameView::Binary(bytes), FrameView::Text(name)],
        ClientMessageView::Disconnect => seq![FrameView::Close],
    }
}

impl ClientMessage {
    /// The request to end the session.
    pub fn disconnect_message() -> (message: Self)
        ensures
            message@ == ClientMessageView::Disconnect,
    {
        ClientMessage::Disconnect
    }

    /// The request to send a line of text.
    pub fn text(msg: &str) -> (message: Self)
        ensures
            message@ == ClientMessageView::Text(msg@),
    {
        ClientMessage::Text(msg.to_owned())
    }

    /// The request to send a file.
    pub fn file(filename: &str, file_as_bytes: Vec<u8>) -> (message: Self)
        ensures
            message@ == ClientMessageView::File(filename@, file_as_bytes@),
    {
        ClientMessage::File(filename.to_owned(), file_as_bytes)
    }

    /// The frames that carry the message, in the order in which they are to be
    /// sent.
    pub fn into_frames(self) -> (frames: Vec<Frame>)
        ensures
            frames.deep_view() == frames_of(self@),
    {
        let mut frames: Vec<Frame> = Vec::new();
        match self {
            ClientMessage::Text(text) => {
                frames.push(Frame::Text(text));
            },
            ClientMessage::File(name, bytes) => {
                frames.push(Frame::Binary(bytes));
                frames.push(Frame::Text(name));
            },
            ClientMessage::Disconnect => {
                frames.push(Frame::Close);
            },
        }
        assert(frames.deep_view() =~= frames_of(self@));
        frames
    }
}

/// The largest file that a client reads in to send: one gibibyte.
pub const MAXIMUM_FILE_SIZE_BYTES: u64 = 1_073_741_824;

/// Whether a file of `size` bytes may be read in to be sent.
pub fn within_file_limit(size: u64) -> (allowed: bool)
    ensures
        allowed == (size <= MAXIMUM_FILE_SIZE_BYTES),
{
    size <= MAXIMUM_FILE_SIZE_BYTES
}

/// Whether the login form holds enough to connect: a user name and a server
/// address.
pub fn may_connect(username: &str, server_addr: &str) -> (ready: bool)
    ensures
        ready == (username@.len() > 0 && server_addr@.len() > 0),
{
    !username.is_empty() && !server_addr.is_empty()
}

/// The password of a login form: an empty field means that there is none.
pub fn optional_password(password: String) -> (maybe_password: Option<String>)
    ensures
        maybe_password == if password@.len() == 0 {
            None
        } else {
            Some(password)
        },
{
    if password.as_str().is_empty() {
        None
    } else {
        Some(password)
    }
}

/// The envelope that a frame from the server carries: the text of a text
/// frame. Every other kind of frame is not what the server is to send.
pub fn envelope_of(frame: Frame) -> (envelope: Result<String, ClientError>)
    ensures
        match frame {
            Frame::Text(text) => envelope == Ok::<String, ClientError>(text),
            _ => envelope matches Err(e) && e is IncomingMessageFormat,
        },
{
    match frame {
        Frame::Text(text) => Ok(text),
        _ => Err(ClientError::IncomingMessageFormat),
    }
}

/// Whether a field of this name carries the challenge.
pub open spec fn names_challenge(field: Seq<char>) -> bool {
    same_ignoring_ascii_case(field, CRYPT_VALIDATION_KEY@)
}

/// Whether the field at place `i` is a challenge that the password does not
/// meet.
pub open spec fn fails_at(headers: Seq<HeaderView>, password: Option<Seq<char>>, i: int) -> bool {
    names_challenge(headers[i].name) && !challenge_opens(headers[i].value, password)
}

/// Checks the server's answer to the upgrade against the password at hand.
///
/// Every challenge field of the response must be met; a response without one
/// passes. The error is that of the first field that is not met: a value that
/// is not base64 text is reported as such, and anything else as a bad
/// password.
pub fn check_response(headers: &Vec<Header>, maybe_password: &Option<String>) -> (verdict: Result<
    (),
    ClientError,
>)
    ensures
        verdict is Ok <==> forall|i: int|
            0 <= i < headers@.len() ==> !#[trigger] fails_at(
                headers.deep_view(),
                maybe_password.deep_view(),
                i,
            ),
        verdict matches Err(e) ==> exists|i: int|
            {
                &&& 0 <= i < headers@.len()
                &&& #[trigger] fails_at(headers.deep_view(), maybe_password.deep_view(), i)
                &&& forall|k: int|
                    0 <= k < i ==> !#[trigger] fails_at(
                        headers.deep_view(),
                        maybe_password.deep_view(),
                        k,
                    )
                &&& e is PasswordErrorBase64 <==> base64_bytes(headers@[i].value@) is None
                &&& e is BadPassword <==> base64_bytes(headers@[i].value@) is Some
            },
{
    let ghost fields = headers.deep_view();
    let ghost password = maybe_password.deep_view();
    let mut i: usize = 0;
    while i < headers.len()
        invariant
            i <= headers@.len(),
            fields == headers.deep_view(),
            password == maybe_password.deep_view(),
            forall|k: int| 0 <= k < i ==> !#[trigger] fails_at(fields, password, k),
        decreases headers@.len() - i,
    {
        let header = &headers[i];
        assert(fields[i as int] == header.deep_view());
        if eq_ignore_ascii_case(header.name.as_str(), CRYPT_VALIDATION_KEY) {
            match verify_challenge(header.value.as_str(), maybe_password) {
                Ok(()) => {},
                Err(e) => {
                    assert(fails_at(fields, password, i as int));
                    return Err(e);
                },
            }
        }
        i += 1;
    }
    Ok(())
}

} // verus!
