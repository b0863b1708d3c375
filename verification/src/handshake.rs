//! The gatekeeper: what a connection must present before it is admitted.
//!
//! A request names its identity in the field `username`. The name `server`,
//! in any mix of capitals and small letters, is kept for system messages and
//! is never given to a client.

use crate::crypt::{challenge_opens, is_header_text, make_challenge, sealable, sentinel};
use crate::base64_serialize::base64_text;
use crate::error::{HandshakeRejected, SealError};
use crate::text::{eq_ignore_ascii_case, same_ignoring_ascii_case};
use vstd::prelude::*;
use vstd::string::StringExecFns;

verus! {

/// The request field that carries the identity claim.
pub const IDENTITY_FIELD: &'static str = "username";

/// The identity kept for system messages.
pub const RESERVED_IDENTITY: &'static str = "server";

/// One field of the request's metadata whose value is readable text.
#[derive(Debug, PartialEq, Eq)]
pub struct Header {
    pub name: String,
    pub value: String,
}

/// Mathematical model of a [`Header`].
pub struct HeaderView {
    pub name: Seq<char>,
    pub value: Seq<char>,
}

impl DeepView for Header {
    type V = HeaderView;

    open spec fn deep_view(&self) -> HeaderView {
        HeaderView { name: self.name@, value: self.value@ }
    }
}

/// Whether `identity` is the reserved name, in whatever case it is written.
pub open spec fn is_reserved(identity: Seq<char>) -> bool {
    same_ignoring_ascii_case(identity, RESERVED_IDENTITY@)
}

/// Whether a field of this name carries the identity claim.
pub open spec fn names_identity(field: Seq<char>) -> bool {
    same_ignoring_ascii_case(field, IDENTITY_FIELD@)
}

/// The identity that a request claims: the values of its identity fields, in
/// the order in which they stand, joined; a field that holds the reserved name
/// adds nothing.
pub open spec fn claimed_identity(headers: Seq<HeaderView>) -> Seq<char>
    decreases headers.len(),
{
    if headers.len() == 0 {
        Seq::empty()
    } else {
        let before = claimed_identity(headers.drop_last());
        let field = headers.last();
        if names_identity(field.name) && !is_reserved(field.value) {
            before + field.value
        } else {
            before
        }
    }
}

/// Whether some identity field of the request holds the reserved name.
pub open spec fn claims_reserved(headers: Seq<HeaderView>) -> bool {
    exists|i: int|
        0 <= i < headers.len() && names_identity(#[trigger] headers[i].name) && is_reserved(
            headers[i].value,
        )
}

/// The gatekeeper's ruling on a request: the display name, or why there is
/// none.
///
/// A request without an identity is refused as missing one, unless it claimed
/// the reserved name, which is refused as such. An identity that is the
/// reserved name is refused however it came about.
pub open spec fn identity_ruling(headers: Seq<HeaderView>) -> Result<Seq<char>, HandshakeRejected> {
    let identity = claimed_identity(headers);
    if identity.len() == 0 {
        if claims_reserved(headers) {
            Err(HandshakeRejected::ReservedIdentity)
        } else {
            Err(HandshakeRejected::MissingIdentity)
        }
    } else if is_reserved(identity) {
        Err(HandshakeRejected::ReservedIdentity)
    } else {
        Ok(identity)
    }
}

/// Whether `identity` is the reserved name, in whatever case it is written.
pub fn is_reserved_identity(identity: &str) -> (reserved: bool)
    ensures
        reserved == is_reserved(identity@),
{
    eq_ignore_ascii_case(identity, RESERVED_IDENTITY)
}

/// Reads the identity claim of a request and rules on it.
pub fn negotiate_identity(headers: &Vec<Header>) -> (ruling: Result<String, HandshakeRejected>)
    ensures
        match ruling {
            Ok(name) => identity_ruling(headers.deep_view()) == Ok::<Seq<char>, HandshakeRejected>(
                name@,
            ),
            Err(reason) => identity_ruling(headers.deep_view()) == Err::<
                Seq<char>,
                HandshakeRejected,
            >(reason),
        },
{
    let ghost fields = headers.deep_view();
    let mut username = String::new();
    let mut reserved_seen = false;
    let mut i: usize = 0;
    while i < headers.len()
        invariant
            i <= headers@.len(),
            fields == headers.deep_view(),
            username@ == claimed_identity(fields.take(i as int)),
            reserved_seen == claims_reserved(fields.take(i as int)),
        decreases headers@.len() - i,
    {
        let header = &headers[i];
        proof {
            let grown = fields.take(i + 1);
            assert(grown.drop_last() == fields.take(i as int));
            assert(grown.last() == header.deep_view());
        }
        if eq_ignore_ascii_case(header.name.as_str(), IDENTITY_FIELD) {
            if is_reserved_identity(header.value.as_str()) {
                reserved_seen = true;
                proof {
                    let grown = fields.take(i + 1);
                    assert(names_identity(grown[i as int].name) && is_reserved(grown[i as int].value));
                }
            } else {
                username.append(header.value.as_str());
                proof {
                    lemma_claims_reserved_grows(fields.take(i + 1));
                }
            }
        } else {
            proof {
                lemma_claims_reserved_grows(fields.take(i + 1));
            }
        }
        i += 1;
    }
    proof {
        assert(fields.take(i as int) == fields);
    }
    if username.as_str().is_empty() {
        if reserved_seen {
            Err(HandshakeRejected::ReservedIdentity)
        } else {
            Err(HandshakeRejected::MissingIdentity)
        }
    } else if is_reserved_identity(username.as_str()) {
        Err(HandshakeRejected::ReservedIdentity)
    } else {
        Ok(username)
    }
}

/// What the server answers an accepted request with.
#[derive(Debug, PartialEq, Eq)]
pub struct Accepted {
    /// The name under which the peer will be known.
    pub display_name: String,
    /// The response field that carries the challenge.
    pub challenge: Header,
}

/// Why a request was not accepted.
#[derive(Debug)]
pub enum HandshakeFailure {
    /// The gatekeeper refused the identity claim.
    Rejected(HandshakeRejected),
    /// The identity was in order, but the challenge could not be sealed.
    Unsealed(SealError),
}

/// The sentence that answers a request whose identity claim was refused.
pub open spec fn identity_refusal() -> Seq<char> {
    "Did not provide valid username"@
}

impl HandshakeRejected {
    /// What the refused peer is told: a sentence where the identity claim was
    /// at fault, nothing where the address was refused.
    pub fn explanation(&self) -> (sentence: Option<String>)
        ensures
            (*self is MissingIdentity || *self is ReservedIdentity) ==> (sentence matches Some(text)
                && text@ == identity_refusal()),
            (*self is Banned || *self is DuplicateAddress) ==> sentence is None,
    {
        match self {
            HandshakeRejected::MissingIdentity | HandshakeRejected::ReservedIdentity => Some(
                "Did not provide valid username".to_owned(),
            ),
            HandshakeRejected::Banned | HandshakeRejected::DuplicateAddress => None,
        }
    }
}

/// Rules on an upgrade request and prepares the answer to it.
///
/// The identity claim is judged first; a refused claim is refused whatever the
/// secret. An accepted request is answered with the challenge under its
/// well-known field, as text that can stand in a header. Without a secret the
/// challenge is the sentinel in base64. With a secret the sealing fails only
/// where the secret is too long for the key derivation, and whatever the
/// cipher drew, a client holding the same secret accepts the challenge.
pub fn handshake(headers: &Vec<Header>, secret: &Option<String>) -> (outcome: Result<
    Accepted,
    HandshakeFailure,
>)
    ensures
        identity_ruling(headers.deep_view()) matches Err(reason) ==> (outcome matches Err(
            HandshakeFailure::Rejected(given),
        ) && given == reason),
        identity_ruling(headers.deep_view()) matches Ok(name) ==> match outcome {
            Ok(accepted) => {
                &&& accepted.display_name@ == name
                &&& accepted.challenge.name@ == crate::crypt::CRYPT_VALIDATION_KEY@
                &&& challenge_opens(accepted.challenge.value@, secret.deep_view())
                &&& secret is Some ==> !challenge_opens(accepted.challenge.value@, None)
                &&& secret is None ==> accepted.challenge.value@ == base64_text(sentinel())
                &&& is_header_text(accepted.challenge.value@)
            },
            Err(failure) => {
                &&& failure is Unsealed
                &&& secret matches Some(password)
                &&& !sealable(password@)
            },
        },
{
    let display_name = match negotiate_identity(headers) {
        Ok(name) => name,
        Err(reason) => {
            return Err(HandshakeFailure::Rejected(reason));
        },
    };
    match make_challenge(secret) {
        Ok(value) => Ok(
            Accepted {
                display_name,
                challenge: Header { name: crate::crypt::CRYPT_VALIDATION_KEY.to_owned(), value },
            },
        ),
        Err(failure) => Err(HandshakeFailure::Unsealed(failure)),
    }
}

/// Texts that differ only in the case of ASCII letters are either both the
/// reserved name or both not: the rule is blind to case.
pub proof fn lemma_reserved_in_any_case(identity: Seq<char>, other: Seq<char>)
    requires
        same_ignoring_ascii_case(identity, other),
    ensures
        is_reserved(identity) == is_reserved(other),
{
    let reserved = RESERVED_IDENTITY@;
    if is_reserved(identity) {
        assert forall|i: int| 0 <= i < other.len() implies crate::text::ascii_lower(
            #[trigger] other[i],
        ) == crate::text::ascii_lower(reserved[i]) by {
            assert(crate::text::ascii_lower(identity[i]) == crate::text::ascii_lower(other[i]));
        }
    }
    if is_reserved(other) {
        assert forall|i: int| 0 <= i < identity.len() implies crate::text::ascii_lower(
            #[trigger] identity[i],
        ) == crate::text::ascii_lower(reserved[i]) by {
            assert(crate::text::ascii_lower(identity[i]) == crate::text::ascii_lower(other[i]));
        }
    }
}

/// The author of system messages is the reserved name: with
/// [`lemma_admitted_identity_is_free`], no client is ever admitted under it.
pub proof fn lemma_system_author_is_reserved()
    ensures
        is_reserved(crate::messages::system_author()),
{
}

/// A request whose one identity field claims the reserved name, in any case,
/// is refused for that reason.
pub proof fn lemma_reserved_claim_is_refused(field: Seq<char>, identity: Seq<char>)
    requires
        names_identity(field),
        is_reserved(identity),
    ensures
        identity_ruling(seq![HeaderView { name: field, value: identity }]) == Err::<
            Seq<char>,
            HandshakeRejected,
        >(HandshakeRejected::ReservedIdentity),
{
    let headers = seq![HeaderView { name: field, value: identity }];
    assert(headers.drop_last() =~= Seq::<HeaderView>::empty());
    reveal_with_fuel(claimed_identity, 2);
    assert(claimed_identity(headers) =~= Seq::<char>::empty());
    assert(names_identity(headers[0].name) && is_reserved(headers[0].value));
}

/// Whatever the request, a name that the gatekeeper lets through is not empty
/// and is not the reserved name.
pub proof fn lemma_admitted_identity_is_free(headers: Seq<HeaderView>)
    ensures
        identity_ruling(headers) matches Ok(name) ==> name.len() > 0 && !is_reserved(name),
{
}

/// A field that does not hold the reserved name under the identity field
/// leaves `claims_reserved` as it was before the field.
proof fn lemma_claims_reserved_grows(headers: Seq<HeaderView>)
    requires
        headers.len() > 0,
        !(names_identity(headers.last().name) && is_reserved(headers.last().value)),
    ensures
        claims_reserved(headers) == claims_reserved(headers.drop_last()),
{
    let before = headers.drop_last();
    if claims_reserved(headers) {
        let i = choose|i: int|
            0 <= i < headers.len() && names_identity(#[trigger] headers[i].name) && is_reserved(
                headers[i].value,
            );
        assert(names_identity(before[i].name) && is_reserved(before[i].value));
    }
    if claims_reserved(before) {
        let i = choose|i: int|
            0 <= i < before.len() && names_identity(#[trigger] before[i].name) && is_reserved(
                before[i].value,
            );
        assert(names_identity(headers[i].name) && is_reserved(headers[i].value));
    }
}

} // verus!
