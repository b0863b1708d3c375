//! The session registry: who is connected.
//!
//! The registry is the one piece of state that connections share. It is a
//! plain value; whoever owns it decides how access is serialised, and a
//! `&mut` borrow is that exclusive access. It keeps its sessions in the order
//! in which they were admitted, and never holds two sessions of one address.

use crate::address::{Address, IpAddress};
use crate::config::listed;
use crate::error::HandshakeRejected;
use vstd::prelude::*;

verus! {

/// An admitted connection: where it comes from, what it is called, and the
/// handle through which frames are sent to it.
#[derive(Debug)]
pub struct Session<H> {
    pub address: Address,
    pub display_name: String,
    pub outbound: H,
}

/// The address of the session at place `i`.
pub open spec fn address_at<H>(sessions: Seq<Session<H>>, i: int) -> Address {
    sessions[i].address
}

/// Whether some session in `sessions` has `address`.
pub open spec fn holds<H>(sessions: Seq<Session<H>>, address: Address) -> bool {
    exists|i: int| 0 <= i < sessions.len() && #[trigger] address_at(sessions, i) == address
}

/// Whether no two sessions in `sessions` share an address.
pub open spec fn distinct_addresses<H>(sessions: Seq<Session<H>>) -> bool {
    forall|i: int, j: int|
        0 <= i < j < sessions.len() ==> #[trigger] address_at(sessions, i) != #[trigger] address_at(
            sessions,
            j,
        )
}

/// The test that a session is not the one at `address`.
pub open spec fn other_than<H>(address: Address) -> spec_fn(Session<H>) -> bool {
    |session: Session<H>| session.address != address
}

/// The sessions of `sessions` other than the one at `address`, in their order.
pub open spec fn without<H>(sessions: Seq<Session<H>>, address: Address) -> Seq<Session<H>> {
    sessions.filter(other_than(address))
}

/// The test that a session is at none of `addresses`.
pub open spec fn none_of<H>(addresses: Seq<Address>) -> spec_fn(Session<H>) -> bool {
    |session: Session<H>| !addresses.contains(session.address)
}

/// The sessions of `sessions` that are at none of `addresses`, in their order.
pub open spec fn without_all<H>(sessions: Seq<Session<H>>, addresses: Seq<Address>) -> Seq<
    Session<H>,
> {
    sessions.filter(none_of(addresses))
}

/// What a sequence of references refers to.
pub open spec fn referents<T>(refs: Seq<&T>) -> Seq<T> {
    refs.map_values(|r: &T| *r)
}

/// Why `address` may not join `sessions`, if it may not: an address that is
/// already there is a duplicate, whether or not it is banned as well.
pub open spec fn admission_bar<H>(
    sessions: Seq<Session<H>>,
    banned: Seq<IpAddress>,
    address: Address,
) -> Option<HandshakeRejected> {
    if holds(sessions, address) {
        Some(HandshakeRejected::DuplicateAddress)
    } else if banned.contains(address.spec_ip()) {
        Some(HandshakeRejected::Banned)
    } else {
        None
    }
}

/// How an admission ended.
#[derive(Debug)]
pub enum Admission<H> {
    /// The session is in the registry.
    Admitted,
    /// The registry is as it was; the reason, and the handle handed back so
    /// that the caller can close the connection.
    Rejected(HandshakeRejected, H),
}

/// The live sessions.
#[derive(Debug)]
pub struct SessionRegistry<H> {
    sessions: Vec<Session<H>>,
}

impl<H> View for SessionRegistry<H> {
    type V = Seq<Session<H>>;

    /// The sessions, in the order in which they were admitted.
    closed spec fn view(&self) -> Seq<Session<H>> {
        self.sessions@
    }
}

impl<H> SessionRegistry<H> {
    /// The registry's invariant: at most one session per address.
    pub open spec fn well_formed(&self) -> bool {
        distinct_addresses(self@)
    }

    /// A registry without sessions.
    pub fn new() -> (registry: Self)
        ensures
            registry@ == Seq::<Session<H>>::empty(),
            registry.well_formed(),
    {
        SessionRegistry { sessions: Vec::new() }
    }

    /// The number of sessions.
    pub fn len(&self) -> (count: usize)
        ensures
            count == self@.len(),
    {
        self.sessions.len()
    }

    /// Where the session of `address` stands, if there is one.
    fn position(&self, address: &Address) -> (found: Option<usize>)
        ensures
            match found {
                Some(i) => i < self@.len() && address_at(self@, i as int) == *address,
                None => !holds(self@, *address),
            },
    {
        let mut i: usize = 0;
        while i < self.sessions.len()
            invariant
                i <= self.sessions@.len(),
                forall|k: int| 0 <= k < i ==> #[trigger] address_at(self.sessions@, k) != *address,
            decreases self.sessions@.len() - i,
        {
            if self.sessions[i].address == *address {
                return Some(i);
            }
            i += 1;
        }
        None
    }

    /// Whether a session of `address` is in the registry.
    pub fn contains(&self, address: &Address) -> (present: bool)
        ensures
            present == holds(self@, *address),
    {
        self.position(address).is_some()
    }

    /// The display name of the session at `address`.
    pub fn display_name(&self, address: &Address) -> (name: Option<&String>)
        ensures
            match name {
                Some(name) => exists|i: int|
                    0 <= i < self@.len() && #[trigger] address_at(self@, i) == *address
                        && self@[i].display_name == *name,
                None => !holds(self@, *address),
            },
    {
        match self.position(address) {
            Some(i) => Some(&self.sessions[i].display_name),
            None => None,
        }
    }

    /// Admits a session, unless its address is already in the registry or its
    /// IP address is banned.
    ///
    /// A rejection leaves the registry, and so every session in it, as it
    /// was.
    pub fn admit_session(
        &mut self,
        address: Address,
        display_name: String,
        outbound: H,
        banned: &Vec<IpAddress>,
    ) -> (admission: Admission<H>)
        requires
            old(self).well_formed(),
        ensures
            final(self).well_formed(),
            match admission {
                Admission::Admitted => {
                    &&& admission_bar(old(self)@, banned@, address) is None
                    &&& final(self)@ == old(self)@.push(
                        (Session { address, display_name, outbound }),
                    )
                },
                Admission::Rejected(reason, returned) => {
                    &&& admission_bar(old(self)@, banned@, address) == Some(reason)
                    &&& returned == outbound
                    &&& final(self)@ == old(self)@
                },
            },
    {
        if self.contains(&address) {
            return Admission::Rejected(HandshakeRejected::DuplicateAddress, outbound);
        }
        if listed(banned, address.ip()) {
            return Admission::Rejected(HandshakeRejected::Banned, outbound);
        }
        proof {
            lemma_push_keeps_distinct(self@, Session { address, display_name, outbound });
        }
        self.sessions.push(Session { address, display_name, outbound });
        Admission::Admitted
    }

    /// Removes the session at `address`, if there is one, and hands it out.
    ///
    /// Every other session stays, in its place.
    pub fn remove(&mut self, address: &Address) -> (removed: Option<Session<H>>)
        requires
            old(self).well_formed(),
        ensures
            final(self).well_formed(),
            final(self)@ == without(old(self)@, *address),
            match removed {
                Some(session) => session.address == *address && old(self)@.contains(session),
                None => !holds(old(self)@, *address),
            },
    {
        match self.position(address) {
            Some(i) => {
                proof {
                    lemma_without_removes(self@, i as int);
                    lemma_remove_keeps_distinct(self@, i as int);
                }
                let session = self.sessions.remove(i);
                Some(session)
            },
            None => {
                proof {
                    lemma_without_absent(self@, *address);
                }
                None
            },
        }
    }

    /// Removes the sessions at `addresses`, as far as they are there. Every
    /// other session stays, in its place.
    pub fn remove_all(&mut self, addresses: &Vec<Address>)
        requires
            old(self).well_formed(),
        ensures
            final(self).well_formed(),
            final(self)@ == without_all(old(self)@, addresses@),
    {
        let ghost before = self@;
        let mut i: usize = 0;
        proof {
            lemma_without_none(before);
            assert(addresses@.take(0) =~= Seq::<Address>::empty());
        }
        while i < addresses.len()
            invariant
                i <= addresses@.len(),
                self.well_formed(),
                self@ == without_all(before, addresses@.take(i as int)),
            decreases addresses@.len() - i,
        {
            proof {
                lemma_without_one_more(before, addresses@.take(i as int), addresses@[i as int]);
                assert(addresses@.take(i + 1) =~= addresses@.take(i as int).push(
                    addresses@[i as int],
                ));
            }
            let _ = self.remove(&addresses[i]);
            i += 1;
        }
        proof {
            assert(addresses@.take(i as int) =~= addresses@);
        }
    }

    /// The sessions that a frame from `origin` goes to: every session but the
    /// one at `origin`, in the order of admission.
    pub fn broadcast_except(&self, origin: &Address) -> (recipients: Vec<&Session<H>>)
        ensures
            referents(recipients@) == without(self@, *origin),
    {
        let mut recipients: Vec<&Session<H>> = Vec::new();
        let mut i: usize = 0;
        proof {
            reveal(Seq::filter);
            assert(self.sessions@.take(0) =~= Seq::<Session<H>>::empty());
            assert(referents(recipients@) =~= without(self.sessions@.take(0), *origin));
        }
        while i < self.sessions.len()
            invariant
                i <= self.sessions@.len(),
                referents(recipients@) == without(self.sessions@.take(i as int), *origin),
            decreases self.sessions@.len() - i,
        {
            let session = &self.sessions[i];
            proof {
                let seen = self.sessions@.take(i as int);
                assert(self.sessions@.take(i + 1) =~= seen.push(*session));
                seen.lemma_filter_push(*session, other_than(*origin));
            }
            if session.address != *origin {
                let ghost before = recipients@;
                recipients.push(session);
                assert(referents(recipients@) =~= referents(before).push(*session));
            }
            i += 1;
        }
        proof {
            assert(self.sessions@.take(i as int) == self.sessions@);
        }
        recipients
    }
}

/// A frame from one of `n` sessions goes to exactly the `n - 1` others, each
/// of them once, and never back to the session that sent it.
pub proof fn lemma_broadcast_reaches_all_others<H>(sessions: Seq<Session<H>>, i: int)
    requires
        distinct_addresses(sessions),
        0 <= i < sessions.len(),
    ensures
        without(sessions, sessions[i].address) == sessions.remove(i),
        without(sessions, sessions[i].address).len() == sessions.len() - 1,
        !holds(without(sessions, sessions[i].address), sessions[i].address),
        distinct_addresses(without(sessions, sessions[i].address)),
        forall|j: int|
            0 <= j < sessions.len() && j != i ==> without(sessions, sessions[i].address).contains(
                #[trigger] sessions[j],
            ),
{
    lemma_without_removes(sessions, i);
    lemma_remove_keeps_distinct(sessions, i);
    let others = sessions.remove(i);
    assert forall|j: int| 0 <= j < sessions.len() && j != i implies others.contains(
        #[trigger] sessions[j],
    ) by {
        let place = if j < i { j } else { j - 1 };
        assert(others[place] == sessions[j]);
    }
}

/// Once a session is in, a second admission from its address is refused as a
/// duplicate, whatever the ban list says.
pub proof fn lemma_second_admission_is_refused<H>(
    sessions: Seq<Session<H>>,
    session: Session<H>,
    banned: Seq<IpAddress>,
)
    ensures
        admission_bar(sessions.push(session), banned, session.address) == Some(
            HandshakeRejected::DuplicateAddress,
        ),
{
    let grown = sessions.push(session);
    assert(address_at(grown, sessions.len() as int) == session.address);
}

/// Removing an address a second time changes nothing: once removed, it is
/// absent.
pub proof fn lemma_without_twice<H>(sessions: Seq<Session<H>>, address: Address)
    ensures
        !holds(without(sessions, address), address),
        without(without(sessions, address), address) == without(sessions, address),
{
    let remaining = without(sessions, address);
    assert forall|k: int| 0 <= k < remaining.len() implies #[trigger] address_at(remaining, k)
        != address by {
        sessions.lemma_filter_pred(other_than(address), k);
    }
    lemma_without_absent(remaining, address);
}

/// Removing one address leaves every session of another address in the
/// registry, and brings no session in.
pub proof fn lemma_without_keeps_others<H>(
    sessions: Seq<Session<H>>,
    address: Address,
    session: Session<H>,
)
    requires
        session.address != address,
    ensures
        without(sessions, address).contains(session) == sessions.contains(session),
{
    let remaining = without(sessions, address);
    if sessions.contains(session) {
        let i = choose|i: int| 0 <= i < sessions.len() && sessions[i] == session;
        sessions.lemma_filter_contains(other_than(address), i);
    }
    if remaining.contains(session) {
        sessions.lemma_filter_contains_rev(other_than(address), session);
    }
}

/// Removing the session at `address` from sessions with distinct addresses
/// takes out the one place where it stands.
pub proof fn lemma_without_removes<H>(sessions: Seq<Session<H>>, i: int)
    requires
        distinct_addresses(sessions),
        0 <= i < sessions.len(),
    ensures
        without(sessions, sessions[i].address) == sessions.remove(i),
    decreases sessions.len(),
{
    let address = sessions[i].address;
    let rest = sessions.drop_last();
    let last = sessions.last();
    let n = sessions.len() - 1;
    assert(rest.push(last) =~= sessions);
    rest.lemma_filter_push(last, other_than(address));
    assert(address_at(sessions, i) == address);
    assert(address_at(sessions, n) == last.address);
    if i == n {
        assert forall|k: int| 0 <= k < rest.len() implies #[trigger] address_at(rest, k)
            != address by {
            assert(address_at(sessions, k) == address_at(rest, k));
        }
        lemma_without_absent(rest, address);
        assert(sessions.remove(i) =~= rest);
    } else {
        assert forall|a: int, b: int| 0 <= a < b < rest.len() implies #[trigger] address_at(rest, a)
            != #[trigger] address_at(rest, b) by {
            assert(address_at(sessions, a) == address_at(rest, a));
            assert(address_at(sessions, b) == address_at(rest, b));
        }
        lemma_without_removes(rest, i);
        assert(sessions.remove(i) =~= rest.remove(i).push(last));
    }
}

/// Sessions with distinct addresses keep them distinct when one is taken
/// out, and the address that was taken out is then free.
pub proof fn lemma_remove_keeps_distinct<H>(sessions: Seq<Session<H>>, i: int)
    requires
        distinct_addresses(sessions),
        0 <= i < sessions.len(),
    ensures
        distinct_addresses(sessions.remove(i)),
        !holds(sessions.remove(i), sessions[i].address),
{
    let removed = sessions.remove(i);
    let address = sessions[i].address;
    assert(address_at(sessions, i) == address);
    assert forall|a: int, b: int| 0 <= a < b < removed.len() implies #[trigger] address_at(
        removed,
        a,
    ) != #[trigger] address_at(removed, b) by {
        let a0 = if a < i { a } else { a + 1 };
        let b0 = if b < i { b } else { b + 1 };
        assert(address_at(removed, a) == address_at(sessions, a0));
        assert(address_at(removed, b) == address_at(sessions, b0));
    }
    assert forall|a: int| 0 <= a < removed.len() implies #[trigger] address_at(removed, a)
        != address by {
        let a0 = if a < i { a } else { a + 1 };
        assert(address_at(removed, a) == address_at(sessions, a0));
    }
}

/// Sessions with distinct addresses keep them distinct when a session of a
/// free address joins at the end.
pub proof fn lemma_push_keeps_distinct<H>(sessions: Seq<Session<H>>, session: Session<H>)
    requires
        distinct_addresses(sessions),
        !holds(sessions, session.address),
    ensures
        distinct_addresses(sessions.push(session)),
{
    let grown = sessions.push(session);
    assert forall|a: int, b: int| 0 <= a < b < grown.len() implies #[trigger] address_at(grown, a)
        != #[trigger] address_at(grown, b) by {
        assert(address_at(grown, a) == address_at(sessions, a));
        if b < sessions.len() {
            assert(address_at(grown, b) == address_at(sessions, b));
        } else {
            assert(address_at(grown, b) == session.address);
        }
    }
}

/// After several addresses are removed, exactly the sessions at those
/// addresses are gone: a session is still there if and only if it was there
/// and is at none of them.
pub proof fn lemma_only_the_named_are_gone<H>(
    sessions: Seq<Session<H>>,
    addresses: Seq<Address>,
    session: Session<H>,
)
    ensures
        without_all(sessions, addresses).contains(session) == (sessions.contains(session)
            && !addresses.contains(session.address)),
{
    let remaining = without_all(sessions, addresses);
    if sessions.contains(session) && !addresses.contains(session.address) {
        let i = choose|i: int| 0 <= i < sessions.len() && sessions[i] == session;
        sessions.lemma_filter_contains(none_of(addresses), i);
    }
    if remaining.contains(session) {
        let k = choose|k: int| 0 <= k < remaining.len() && remaining[k] == session;
        sessions.lemma_filter_pred(none_of(addresses), k);
        sessions.lemma_filter_contains_rev(none_of(addresses), session);
    }
}

/// Removing no address changes nothing.
pub proof fn lemma_without_none<H>(sessions: Seq<Session<H>>)
    ensures
        without_all(sessions, Seq::<Address>::empty()) == sessions,
    decreases sessions.len(),
{
    let nobody = Seq::<Address>::empty();
    if sessions.len() > 0 {
        let rest = sessions.drop_last();
        let last = sessions.last();
        assert(rest.push(last) =~= sessions);
        rest.lemma_filter_push(last, none_of(nobody));
        assert(!nobody.contains(last.address));
        lemma_without_none(rest);
    } else {
        reveal(Seq::filter);
    }
}

/// Removing several addresses and then one more is removing them all at
/// once.
pub proof fn lemma_without_one_more<H>(
    sessions: Seq<Session<H>>,
    addresses: Seq<Address>,
    address: Address,
)
    ensures
        without(without_all(sessions, addresses), address) == without_all(
            sessions,
            addresses.push(address),
        ),
    decreases sessions.len(),
{
    let more = addresses.push(address);
    if sessions.len() > 0 {
        let rest = sessions.drop_last();
        let last = sessions.last();
        assert(rest.push(last) =~= sessions);
        lemma_without_one_more(rest, addresses, address);
        lemma_contains_after_push(addresses, address, last.address);
        rest.lemma_filter_push(last, none_of(addresses));
        rest.lemma_filter_push(last, none_of(more));
        without_all(rest, addresses).lemma_filter_push(last, other_than(address));
    } else {
        reveal(Seq::filter);
    }
}

/// An address is among some addresses and one more exactly if it is among
/// the first or is the one.
proof fn lemma_contains_after_push(addresses: Seq<Address>, address: Address, sought: Address)
    ensures
        addresses.push(address).contains(sought) == (addresses.contains(sought) || sought
            == address),
{
    let more = addresses.push(address);
    if addresses.contains(sought) {
        let i = choose|i: int| 0 <= i < addresses.len() && addresses[i] == sought;
        assert(more[i] == sought);
    }
    if sought == address {
        assert(more[addresses.len() as int] == sought);
    }
    if more.contains(sought) {
        let i = choose|i: int| 0 <= i < more.len() && more[i] == sought;
        if i < addresses.len() {
            assert(addresses[i] == sought);
        }
    }
}

/// Removing an address that is not there changes nothing.
pub proof fn lemma_without_absent<H>(sessions: Seq<Session<H>>, address: Address)
    requires
        !holds(sessions, address),
    ensures
        without(sessions, address) == sessions,
    decreases sessions.len(),
{
    if sessions.len() > 0 {
        let rest = sessions.drop_last();
        let last = sessions.last();
        assert(rest.push(last) =~= sessions);
        rest.lemma_filter_push(last, other_than(address));
        assert forall|k: int| 0 <= k < rest.len() implies #[trigger] address_at(rest, k)
            != address by {
            assert(address_at(sessions, k) == address_at(rest, k));
        }
        assert(address_at(sessions, sessions.len() - 1) == last.address);
        lemma_without_absent(rest, address);
    } else {
        reveal(Seq::filter);
    }
}

} // verus!
