//! Frames of the connection, as the relay and the client see them.

use vstd::prelude::*;

verus! {

/// One frame of an admitted connection.
#[derive(Debug, PartialEq, Eq)]
pub enum Frame {
    /// A text frame and its text.
    Text(String),
    /// A binary frame and its bytes.
    Binary(Vec<u8>),
    /// The frame that announces a voluntary disconnect.
    Close,
    /// A frame of any other kind.
    Other,
}

/// Mathematical model of a [`Frame`].
pub enum FrameView {
    Text(Seq<char>),
    Binary(Seq<u8>),
    Close,
    Other,
}

impl DeepView for Frame {
    type V = FrameView;

    open spec fn deep_view(&self) -> FrameView {
        match self {
            Frame::Text(text) => FrameView::Text(text@),
            Frame::Binary(bytes) => FrameView::Binary(bytes@),
            Frame::Close => FrameView::Close,
            Frame::Other => FrameView::Other,
        }
    }
}

impl View for Frame {
    type V = FrameView;

    open spec fn view(&self) -> FrameView {
        self.deep_view()
    }
}

} // verus!
