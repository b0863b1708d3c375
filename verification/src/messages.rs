//! The message envelope exchanged after admission.

use crate::handshake::RESERVED_IDENTITY;
use vstd::prelude::*;

verus! {

/// What a message carries: a line of text, or a named file.
#[derive(Debug, Clone, PartialEq, Eq)]
pub enum MessageContents {
    Text(String),
    File { name: String, contents: Vec<u8> },
}

/// Mathematical model of [`MessageContents`].
pub enum ContentsView {
    Text(Seq<char>),
    File { name: Seq<char>, contents: Seq<u8> },
}

impl View for MessageContents {
    type V = ContentsView;

    open spec fn view(&self) -> ContentsView {
        match self {
            MessageContents::Text(text) => ContentsView::Text(text@),
            MessageContents::File { name, contents } => ContentsView::File {
                name: name@,
                contents: contents@,
            },
        }
    }
}

/// A message as relayed to every other session: who wrote it, and what it holds.
#[derive(Debug, Clone, PartialEq, Eq)]
pub struct ServerMessage {
    pub author: String,
    pub contents: MessageContents,
}

/// Mathematical model of [`ServerMessage`].
pub struct MessageView {
    pub author: Seq<char>,
    pub contents: ContentsView,
}

impl View for ServerMessage {
    type V = MessageView;

    open spec fn view(&self) -> MessageView {
        MessageView { author: self.author@, contents: self.contents@ }
    }
}

/// The author of every message that comes from the system and not from a
/// client: the reserved identity, which no client is ever admitted under.
pub open spec fn system_author() -> Seq<char> {
    RESERVED_IDENTITY@
}

/// Text of the notice that a client shows itself after leaving.
pub open spec fn local_notice_text() -> Seq<char> {
    "You have been disconnected..."@
}

impl ServerMessage {
    /// A text message from `author`.
    pub fn text(author: &str, contents: &str) -> (message: Self)
        ensures
            message@ == (MessageView { author: author@, contents: ContentsView::Text(contents@) }),
    {
        ServerMessage {
            author: author.to_owned(),
            contents: MessageContents::Text(contents.to_owned()),
        }
    }

    /// A file message from `author`: the file's name and its bytes.
    pub fn file(author: &str, filename: &str, file_contents: Vec<u8>) -> (message: Self)
        ensures
            message@ == (MessageView {
                author: author@,
                contents: ContentsView::File { name: filename@, contents: file_contents@ },
            }),
    {
        ServerMessage {
            author: author.to_owned(),
            contents: MessageContents::File {
                name: filename.to_owned(),
                contents: file_contents,
            },
        }
    }

    /// The notice that a client appends to its own history once it has left
    /// the chat: a message of the system.
    pub fn disconnect_message() -> (message: Self)
        ensures
            message@ == (MessageView {
                author: system_author(),
                contents: ContentsView::Text(local_notice_text()),
            }),
    {
        ServerMessage {
            author: RESERVED_IDENTITY.to_owned(),
            contents: MessageContents::Text("You have been disconnected...".to_owned()),
        }
    }
}

} // verus!
