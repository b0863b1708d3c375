//! The server's decisions, from the first request of a connection to its end.
//!
//! A [`Server`] owns the configuration and the registry. The program around it
//! accepts connections, reads frames and writes them; at each step it asks the
//! server what to do: whether a request is accepted and with what answer,
//! whether the connection is admitted, and what an event on an admitted
//! connection leads to, for whom.

use crate::address::Address;
use crate::base64_serialize::base64_text;
use crate::config::ServerConfig;
use crate::crypt::{challenge_opens, is_header_text, sealable, sentinel, CRYPT_VALIDATION_KEY};
use crate::error::HandshakeRejected;
use crate::handshake::{handshake, identity_ruling, Accepted, HandshakeFailure, Header};
use crate::registry::{
    admission_bar, distinct_addresses, referents, without, without_all, Admission, Session,
    SessionRegistry,
};
use crate::frame::FrameView;
use crate::registry::{holds, lemma_broadcast_reaches_all_others, lemma_without_twice};
use crate::relay::{
    farewell, listening, transition, Action, ActionView, Event, EventView, PhaseView, Relay,
    RelayView,
};
use vstd::prelude::*;

verus! {

/// How the admission of a connection ended.
#[derive(Debug)]
pub enum Reception<H> {
    /// The session is in the registry; its relay starts out listening.
    Admitted(Relay),
    /// The registry is as it was; the reason, and the handle handed back so
    /// that the caller can close the connection.
    Rejected(HandshakeRejected, H),
}

/// Whether an action ends the session that it is for.
pub open spec fn ends_session(action: ActionView) -> bool {
    action is Farewell || action is Drop
}

/// The server: its configuration, and the sessions that are connected.
#[derive(Debug)]
pub struct Server<H> {
    connected_users: SessionRegistry<H>,
    config: ServerConfig,
}

impl<H> Server<H> {
    /// The sessions, in the order in which they were admitted.
    pub closed spec fn sessions(&self) -> Seq<Session<H>> {
        self.connected_users@
    }

    /// The configuration that the server was made with.
    pub closed spec fn configuration(&self) -> ServerConfig {
        self.config
    }

    /// The server's invariant: at most one session per address.
    pub open spec fn well_formed(&self) -> bool {
        distinct_addresses(self.sessions())
    }

    /// A server with the given configuration and nobody connected.
    pub fn new(config: ServerConfig) -> (server: Self)
        ensures
            server.sessions() == Seq::<Session<H>>::empty(),
            server.configuration() == config,
            server.well_formed(),
    {
        Server { connected_users: SessionRegistry::new(), config }
    }

    /// The configuration.
    pub fn config(&self) -> (config: &ServerConfig)
        ensures
            *config == self.configuration(),
    {
        &self.config
    }

    /// The number of sessions.
    pub fn session_count(&self) -> (count: usize)
        ensures
            count == self.sessions().len(),
    {
        self.connected_users.len()
    }

    /// Rules on an upgrade request under the configured secret.
    pub fn handshake(&self, headers: &Vec<Header>) -> (outcome: Result<Accepted, HandshakeFailure>)
        ensures
            identity_ruling(headers.deep_view()) matches Err(reason) ==> (outcome matches Err(
                HandshakeFailure::Rejected(given),
            ) && given == reason),
            identity_ruling(headers.deep_view()) matches Ok(name) ==> match outcome {
                Ok(accepted) => {
                    let secret = self.configuration().auth;
                    &&& accepted.display_name@ == name
                    &&& accepted.challenge.name@ == CRYPT_VALIDATION_KEY@
                    &&& challenge_opens(accepted.challenge.value@, secret.deep_view())
                    &&& secret is Some ==> !challenge_opens(accepted.challenge.value@, None)
                    &&& secret is None ==> accepted.challenge.value@ == base64_text(sentinel())
                    &&& is_header_text(accepted.challenge.value@)
                },
                Err(failure) => {
                    &&& failure is Unsealed
                    &&& self.configuration().auth matches Some(password)
                    &&& !sealable(password@)
                },
            },
    {
        handshake(headers, &self.config.auth)
    }

    /// Admits a connection whose request was accepted, unless its address is
    /// already connected or its IP address is banned.
    pub fn receive(&mut self, address: Address, display_name: String, outbound: H) -> (reception:
        Reception<H>)
        requires
            old(self).well_formed(),
        ensures
            final(self).well_formed(),
            final(self).configuration() == old(self).configuration(),
            match reception {
                Reception::Admitted(relay) => {
                    &&& admission_bar(
                        old(self).sessions(),
                        old(self).configuration().banned_users@,
                        address,
                    ) is None
                    &&& final(self).sessions() == old(self).sessions().push(
                        (Session { address, display_name, outbound }),
                    )
                    &&& relay@ == (RelayView {
                        display_name: display_name@,
                        phase: PhaseView::Listening,
                    })
                },
                Reception::Rejected(reason, returned) => {
                    &&& admission_bar(
                        old(self).sessions(),
                        old(self).configuration().banned_users@,
                        address,
                    ) == Some(reason)
                    &&& returned == outbound
                    &&& final(self).sessions() == old(self).sessions()
                },
            },
    {
        let name = display_name.clone();
        match self.connected_users.admit_session(
            address,
            display_name,
            outbound,
            &self.config.banned_users,
        ) {
            Admission::Admitted => Reception::Admitted(Relay::new(name)),
            Admission::Rejected(reason, returned) => Reception::Rejected(reason, returned),
        }
    }

    /// Takes one event of the connection at `origin` and answers with what is
    /// to be done.
    ///
    /// The relay moves as [`transition`] says. Where the action ends the
    /// session, the session is out of the registry when this returns, and
    /// every other session is still in its place; otherwise the registry is as
    /// it was.
    pub fn on_event(&mut self, origin: &Address, relay: &mut Relay, event: Event) -> (action: Action)
        requires
            old(self).well_formed(),
        ensures
            final(self).well_formed(),
            final(self).configuration() == old(self).configuration(),
            final(relay)@.display_name == old(relay)@.display_name,
            (final(relay)@.phase, action@) == transition(old(relay)@, event@),
            final(self).sessions() == if ends_session(action@) {
                without(old(self).sessions(), *origin)
            } else {
                old(self).sessions()
            },
    {
        let action = relay.step(event);
        match action {
            Action::Farewell(_) | Action::Drop(_) => {
                let _ = self.connected_users.remove(origin);
            },
            _ => {},
        }
        action
    }

    /// Takes out of the registry the sessions whose connection failed while a
    /// frame was sent to them. Exactly the sessions at `failed` are gone; every
    /// other session stays in its place, and none is told.
    pub fn drop_failed(&mut self, failed: &Vec<Address>)
        requires
            old(self).well_formed(),
        ensures
            final(self).well_formed(),
            final(self).configuration() == old(self).configuration(),
            final(self).sessions() == without_all(old(self).sessions(), failed@),
    {
        self.connected_users.remove_all(failed);
    }

    /// The sessions that a message from `origin` goes to: every session but
    /// the one at `origin`.
    pub fn recipients(&self, origin: &Address) -> (recipients: Vec<&Session<H>>)
        ensures
            referents(recipients@) == without(self.sessions(), *origin),
    {
        self.connected_users.broadcast_except(origin)
    }
}

/// When a session takes its leave with a close frame, exactly one message
/// goes out: its farewell, from the system. The session is out of the
/// registry, every other session is still in, and the farewell goes to all of
/// them.
pub proof fn lemma_disconnect_sequencing<H>(sessions: Seq<Session<H>>, i: int)
    requires
        distinct_addresses(sessions),
        0 <= i < sessions.len(),
    ensures
        ({
            let leaving = sessions[i];
            let step = transition(
                listening(leaving.display_name@),
                EventView::Frame(FrameView::Close),
            );
            let remaining = without(sessions, leaving.address);
            &&& step.0 == PhaseView::Disconnected
            &&& step.1 == ActionView::Farewell(farewell(leaving.display_name@))
            &&& ends_session(step.1)
            &&& remaining == sessions.remove(i)
            &&& !holds(remaining, leaving.address)
            &&& without(remaining, leaving.address) == remaining
        }),
{
    lemma_broadcast_reaches_all_others(sessions, i);
    lemma_without_twice(sessions, sessions[i].address);
}

} // verus!
