//! The relay of one admitted connection, as a state machine.
//!
//! The relay listens for frames. A text frame is relayed as a text message of
//! its session. A binary frame holds the bytes of a file, and the very next
//! frame must be a text frame with the file's name; the two are relayed as one
//! file message. A close frame ends the relay with a farewell from the system.
//! Anything else ends it without a word. Whoever drives the connection feeds
//! the relay one event at a time and carries out the action it answers with.

use crate::client::{frames_of, ClientMessageView};
use crate::error::ConnectionFault;
use crate::frame::{Frame, FrameView};
use crate::handshake::RESERVED_IDENTITY;
use crate::messages::{
    system_author, ContentsView, MessageContents, MessageView, ServerMessage,
};
use vstd::prelude::*;
use vstd::string::StringExecFns;

verus! {

/// What the connection brought next.
#[derive(Debug, PartialEq, Eq)]
pub enum Event {
    /// A frame arrived.
    Frame(Frame),
    /// The stream ended or failed.
    Ended,
}

/// Mathematical model of an [`Event`].
pub enum EventView {
    Frame(FrameView),
    Ended,
}

impl View for Event {
    type V = EventView;

    open spec fn view(&self) -> EventView {
        match self {
            Event::Frame(frame) => EventView::Frame(frame@),
            Event::Ended => EventView::Ended,
        }
    }
}

/// Where a relay stands.
#[derive(Debug, PartialEq, Eq)]
pub enum Phase {
    /// Between messages.
    Listening,
    /// Holding the bytes of a file whose name is still to come.
    ReconstructingFile(Vec<u8>),
    /// Over: the peer took its leave.
    Disconnected,
    /// Over: the peer broke the protocol.
    ProtocolError,
    /// Over: the connection ended or failed underneath.
    TransportFailed,
}

/// Mathematical model of a [`Phase`].
pub enum PhaseView {
    Listening,
    ReconstructingFile(Seq<u8>),
    Disconnected,
    ProtocolError,
    TransportFailed,
}

impl View for Phase {
    type V = PhaseView;

    open spec fn view(&self) -> PhaseView {
        match self {
            Phase::Listening => PhaseView::Listening,
            Phase::ReconstructingFile(bytes) => PhaseView::ReconstructingFile(bytes@),
            Phase::Disconnected => PhaseView::Disconnected,
            Phase::ProtocolError => PhaseView::ProtocolError,
            Phase::TransportFailed => PhaseView::TransportFailed,
        }
    }
}

impl PhaseView {
    /// Whether the relay is over.
    pub open spec fn is_closed(self) -> bool {
        self is Disconnected || self is ProtocolError || self is TransportFailed
    }
}

/// What the driver of the connection is to do.
#[derive(Debug, PartialEq, Eq)]
pub enum Action {
    /// Nothing yet: wait for the next event.
    Continue,
    /// Send the message to every session but this one, then go on.
    Relay(ServerMessage),
    /// Take this session out of the registry, send the message to every
    /// session that remains, and stop.
    Farewell(ServerMessage),
    /// Take this session out of the registry and stop, without a word to
    /// anyone.
    Drop(ConnectionFault),
    /// The relay was over before the event: there is nothing to do.
    Finished,
}

/// Mathematical model of an [`Action`].
pub enum ActionView {
    Continue,
    Relay(MessageView),
    Farewell(MessageView),
    Drop(ConnectionFault),
    Finished,
}

impl View for Action {
    type V = ActionView;

    open spec fn view(&self) -> ActionView {
        match self {
            Action::Continue => ActionView::Continue,
            Action::Relay(message) => ActionView::Relay(message@),
            Action::Farewell(message) => ActionView::Farewell(message@),
            Action::Drop(fault) => ActionView::Drop(*fault),
            Action::Finished => ActionView::Finished,
        }
    }
}

/// The relay of one session.
#[derive(Debug, PartialEq, Eq)]
pub struct Relay {
    display_name: String,
    phase: Phase,
}

/// Mathematical model of a [`Relay`].
pub struct RelayView {
    pub display_name: Seq<char>,
    pub phase: PhaseView,
}

impl View for Relay {
    type V = RelayView;

    closed spec fn view(&self) -> RelayView {
        RelayView { display_name: self.display_name@, phase: self.phase@ }
    }
}

/// What follows the name in a farewell.
pub open spec fn farewell_suffix() -> Seq<char> {
    " has disconnected"@
}

/// The farewell that the system sends when `display_name` has left.
pub open spec fn farewell(display_name: Seq<char>) -> MessageView {
    MessageView {
        author: system_author(),
        contents: ContentsView::Text(display_name + farewell_suffix()),
    }
}

/// The transition of the relay: the phase after `event`, and the action that
/// the event calls for.
pub open spec fn transition(relay: RelayView, event: EventView) -> (PhaseView, ActionView) {
    match relay.phase {
        PhaseView::Listening => match event {
            EventView::Frame(FrameView::Text(text)) => (
                PhaseView::Listening,
                ActionView::Relay(
                    MessageView { author: relay.display_name, contents: ContentsView::Text(text) },
                ),
            ),
            EventView::Frame(FrameView::Binary(bytes)) => (
                PhaseView::ReconstructingFile(bytes),
                ActionView::Continue,
            ),
            EventView::Frame(FrameView::Close) => (
                PhaseView::Disconnected,
                ActionView::Farewell(farewell(relay.display_name)),
            ),
            EventView::Frame(FrameView::Other) => (
                PhaseView::ProtocolError,
                ActionView::Drop(ConnectionFault::ProtocolViolation),
            ),
            EventView::Ended => (
                PhaseView::TransportFailed,
                ActionView::Drop(ConnectionFault::TransportError),
            ),
        },
        PhaseView::ReconstructingFile(bytes) => match event {
            EventView::Frame(FrameView::Text(name)) => (
                PhaseView::Listening,
                ActionView::Relay(
                    MessageView {
                        author: relay.display_name,
                        contents: ContentsView::File { name, contents: bytes },
                    },
                ),
            ),
            _ => (PhaseView::ProtocolError, ActionView::Drop(ConnectionFault::ProtocolViolation)),
        },
        closed => (closed, ActionView::Finished),
    }
}

/// A relay that listens, for the session called `display_name`.
pub open spec fn listening(display_name: Seq<char>) -> RelayView {
    RelayView { display_name, phase: PhaseView::Listening }
}

/// Where a relay stands after a run of events, and the actions that the
/// events called for, one for each event.
pub open spec fn run(relay: RelayView, events: Seq<EventView>) -> (PhaseView, Seq<ActionView>)
    decreases events.len(),
{
    if events.len() == 0 {
        (relay.phase, Seq::empty())
    } else {
        let (phase, actions) = run(relay, events.drop_last());
        let (next, action) = transition(
            RelayView { display_name: relay.display_name, phase },
            events.last(),
        );
        (next, actions.push(action))
    }
}

/// The messages that a run of actions relays, in their order.
pub open spec fn relayed(actions: Seq<ActionView>) -> Seq<MessageView>
    decreases actions.len(),
{
    if actions.len() == 0 {
        Seq::empty()
    } else {
        let before = relayed(actions.drop_last());
        match actions.last() {
            ActionView::Relay(message) => before.push(message),
            _ => before,
        }
    }
}

/// The frames of a client, as events of the connection.
pub open spec fn as_events(frames: Seq<FrameView>) -> Seq<EventView> {
    frames.map_values(|frame: FrameView| EventView::Frame(frame))
}

impl Relay {
    /// The relay of a session that was just admitted under `display_name`.
    pub fn new(display_name: String) -> (relay: Self)
        ensures
            relay@ == (RelayView { display_name: display_name@, phase: PhaseView::Listening }),
    {
        Relay { display_name, phase: Phase::Listening }
    }

    /// The name of the session.
    pub fn display_name(&self) -> (name: &String)
        ensures
            name@ == self@.display_name,
    {
        &self.display_name
    }

    /// Where the relay stands.
    pub fn phase(&self) -> (phase: &Phase)
        ensures
            phase@ == self@.phase,
    {
        &self.phase
    }

    /// Whether the relay is over.
    pub fn is_closed(&self) -> (closed: bool)
        ensures
            closed == self@.phase.is_closed(),
    {
        match self.phase {
            Phase::Listening => false,
            Phase::ReconstructingFile(_) => false,
            Phase::Disconnected => true,
            Phase::ProtocolError => true,
            Phase::TransportFailed => true,
        }
    }

    /// The farewell for this session.
    fn farewell_message(&self) -> (message: ServerMessage)
        ensures
            message@ == farewell(self@.display_name),
    {
        let text = self.display_name.clone().concat(" has disconnected");
        ServerMessage { author: RESERVED_IDENTITY.to_owned(), contents: MessageContents::Text(text) }
    }

    /// Takes one event and answers with what is to be done.
    ///
    /// The session's name never changes; phase and action are those of
    /// [`transition`].
    pub fn step(&mut self, event: Event) -> (action: Action)
        ensures
            final(self)@.display_name == old(self)@.display_name,
            (final(self)@.phase, action@) == transition(old(self)@, event@),
    {
        let mut phase = Phase::Listening;
        core::mem::swap(&mut self.phase, &mut phase);
        match phase {
            Phase::Listening => match event {
                Event::Frame(Frame::Text(text)) => {
                    Action::Relay(
                        ServerMessage {
                            author: self.display_name.clone(),
                            contents: MessageContents::Text(text),
                        },
                    )
                },
                Event::Frame(Frame::Binary(bytes)) => {
                    self.phase = Phase::ReconstructingFile(bytes);
                    Action::Continue
                },
                Event::Frame(Frame::Close) => {
                    self.phase = Phase::Disconnected;
                    Action::Farewell(self.farewell_message())
                },
                Event::Frame(Frame::Other) => {
                    self.phase = Phase::ProtocolError;
                    Action::Drop(ConnectionFault::ProtocolViolation)
                },
                Event::Ended => {
                    self.phase = Phase::TransportFailed;
                    Action::Drop(ConnectionFault::TransportError)
                },
            },
            Phase::ReconstructingFile(bytes) => match event {
                Event::Frame(Frame::Text(name)) => {
                    Action::Relay(
                        ServerMessage {
                            author: self.display_name.clone(),
                            contents: MessageContents::File { name, contents: bytes },
                        },
                    )
                },
                _ => {
                    self.phase = Phase::ProtocolError;
                    Action::Drop(ConnectionFault::ProtocolViolation)
                },
            },
            closed => {
                self.phase = closed;
                Action::Finished
            },
        }
    }
}

/// A run of two events is the first step followed by the second.
proof fn lemma_run_two(relay: RelayView, first: EventView, second: EventView)
    ensures
        run(relay, seq![first, second]) == ({
            let (middle, one) = transition(relay, first);
            let (last, two) = transition(
                RelayView { display_name: relay.display_name, phase: middle },
                second,
            );
            (last, seq![one, two])
        }),
{
    let events = seq![first, second];
    assert(events.drop_last() =~= seq![first]);
    assert(seq![first].drop_last() =~= Seq::<EventView>::empty());
    reveal_with_fuel(run, 3);
    let (middle, one) = transition(relay, first);
    assert(run(relay, seq![first]).1 =~= seq![one]);
    let two = transition(RelayView { display_name: relay.display_name, phase: middle }, second).1;
    assert(run(relay, events).1 =~= seq![one, two]);
}

/// What two actions relay.
proof fn lemma_relayed_two(one: ActionView, two: ActionView)
    ensures
        relayed(seq![one, two]) == relayed(seq![one]) + relayed(seq![two]),
        relayed(seq![one]) == match one {
            ActionView::Relay(message) => seq![message],
            _ => Seq::<MessageView>::empty(),
        },
        relayed(seq![two]) == match two {
            ActionView::Relay(message) => seq![message],
            _ => Seq::<MessageView>::empty(),
        },
{
    let actions = seq![one, two];
    assert(actions.drop_last() =~= seq![one]);
    assert(seq![one].drop_last() =~= Seq::<ActionView>::empty());
    assert(seq![two].drop_last() =~= Seq::<ActionView>::empty());
    reveal_with_fuel(relayed, 3);
    assert(relayed(seq![one]) =~= match one {
        ActionView::Relay(message) => seq![message],
        _ => Seq::<MessageView>::empty(),
    });
    assert(relayed(seq![two]) =~= match two {
        ActionView::Relay(message) => seq![message],
        _ => Seq::<MessageView>::empty(),
    });
    assert(relayed(actions) =~= relayed(seq![one]) + relayed(seq![two]));
}

/// A binary frame with bytes `bytes`, followed at once by a text frame with
/// the name `name`, is relayed as exactly one message: the file `name` with
/// the bytes `bytes`, from the session that sent the frames. The relay then
/// listens again.
pub proof fn lemma_file_round_trip(display_name: Seq<char>, bytes: Seq<u8>, name: Seq<char>)
    ensures
        ({
            let events = seq![
                EventView::Frame(FrameView::Binary(bytes)),
                EventView::Frame(FrameView::Text(name)),
            ];
            let file = MessageView {
                author: display_name,
                contents: ContentsView::File { name, contents: bytes },
            };
            &&& run(listening(display_name), events).0 == PhaseView::Listening
            &&& run(listening(display_name), events).1 == seq![
                ActionView::Continue,
                ActionView::Relay(file),
            ]
            &&& relayed(run(listening(display_name), events).1) == seq![file]
        }),
{
    let first = EventView::Frame(FrameView::Binary(bytes));
    let second = EventView::Frame(FrameView::Text(name));
    let file = MessageView {
        author: display_name,
        contents: ContentsView::File { name, contents: bytes },
    };
    lemma_run_two(listening(display_name), first, second);
    lemma_relayed_two(ActionView::Continue, ActionView::Relay(file));
    assert(Seq::<MessageView>::empty() + seq![file] =~= seq![file]);
}

/// A binary frame that is followed by anything but a text frame, the end of
/// the stream included, is a protocol violation: the relay ends, the session
/// is dropped, and nothing is relayed.
pub proof fn lemma_file_without_name(display_name: Seq<char>, bytes: Seq<u8>, next: EventView)
    requires
        !(next matches EventView::Frame(FrameView::Text(_))),
    ensures
        ({
            let events = seq![EventView::Frame(FrameView::Binary(bytes)), next];
            &&& run(listening(display_name), events).0 == PhaseView::ProtocolError
            &&& run(listening(display_name), events).1 == seq![
                ActionView::Continue,
                ActionView::Drop(ConnectionFault::ProtocolViolation),
            ]
            &&& relayed(run(listening(display_name), events).1) == Seq::<MessageView>::empty()
        }),
{
    let first = EventView::Frame(FrameView::Binary(bytes));
    lemma_run_two(listening(display_name), first, next);
    lemma_relayed_two(
        ActionView::Continue,
        ActionView::Drop(ConnectionFault::ProtocolViolation),
    );
    assert(Seq::<MessageView>::empty() + Seq::<MessageView>::empty() =~= Seq::<
        MessageView,
    >::empty());
}

/// A run of one event is one step.
proof fn lemma_run_one(relay: RelayView, event: EventView)
    ensures
        run(relay, seq![event]) == (transition(relay, event).0, seq![transition(relay, event).1]),
{
    assert(seq![event].drop_last() =~= Seq::<EventView>::empty());
    reveal_with_fuel(run, 2);
    assert(run(relay, seq![event]).1 =~= seq![transition(relay, event).1]);
}

/// What a client sends reaches the other sessions as it was meant: the frames
/// of a text are relayed as that text, the frames of a file as that file under
/// its name, both from the session that sent them; the frame of a disconnect
/// is answered with the session's farewell.
pub proof fn lemma_client_message_through_relay(display_name: Seq<char>, message: ClientMessageView)
    ensures
        run(listening(display_name), as_events(frames_of(message))) == match message {
            ClientMessageView::Text(text) => (
                PhaseView::Listening,
                seq![
                    ActionView::Relay(
                        MessageView { author: display_name, contents: ContentsView::Text(text) },
                    ),
                ],
            ),
            ClientMessageView::File(name, bytes) => (
                PhaseView::Listening,
                seq![
                    ActionView::Continue,
                    ActionView::Relay(
                        MessageView {
                            author: display_name,
                            contents: ContentsView::File { name, contents: bytes },
                        },
                    ),
                ],
            ),
            ClientMessageView::Disconnect => (
                PhaseView::Disconnected,
                seq![ActionView::Farewell(farewell(display_name))],
            ),
        },
{
    match message {
        ClientMessageView::Text(text) => {
            assert(as_events(frames_of(message)) =~= seq![EventView::Frame(FrameView::Text(text))]);
            lemma_run_one(listening(display_name), EventView::Frame(FrameView::Text(text)));
        },
        ClientMessageView::File(name, bytes) => {
            assert(as_events(frames_of(message)) =~= seq![
                EventView::Frame(FrameView::Binary(bytes)),
                EventView::Frame(FrameView::Text(name)),
            ]);
            lemma_file_round_trip(display_name, bytes, name);
        },
        ClientMessageView::Disconnect => {
            assert(as_events(frames_of(message)) =~= seq![EventView::Frame(FrameView::Close)]);
            lemma_run_one(listening(display_name), EventView::Frame(FrameView::Close));
        },
    }
}

/// A close frame to a listening relay calls for exactly one action: the
/// farewell of the session, from the system. The relay is then over.
pub proof fn lemma_close_is_answered_with_farewell(display_name: Seq<char>)
    ensures
        transition(listening(display_name), EventView::Frame(FrameView::Close)) == (
            PhaseView::Disconnected,
            ActionView::Farewell(
                MessageView {
                    author: system_author(),
                    contents: ContentsView::Text(display_name + farewell_suffix()),
                },
            ),
        ),
{
}

/// A relay that is over stays as it is, and no event has it relay, send or
/// drop anything.
pub proof fn lemma_closed_is_final(relay: RelayView, event: EventView)
    requires
        relay.phase.is_closed(),
    ensures
        transition(relay, event) == (relay.phase, ActionView::Finished),
{
}

/// Whatever a relay that is not over is fed, the session's messages bear its
/// own name as author, and only the farewell bears the system's.
pub proof fn lemma_author_is_session_or_system(relay: RelayView, event: EventView)
    ensures
        transition(relay, event).1 matches ActionView::Relay(message) ==> message.author
            == relay.display_name,
        transition(relay, event).1 matches ActionView::Farewell(message) ==> message.author
            == system_author(),
{
}

} // verus!
