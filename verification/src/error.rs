//! What can go wrong, as the library itself decides it.

use vstd::prelude::*;

verus! {

/// Why a connection was never admitted. No session exists for it.
#[derive(Clone, Copy, Debug, PartialEq, Eq, Structural)]
pub enum HandshakeRejected {
    /// The request names no identity, or an empty one.
    MissingIdentity,
    /// The request claims the name kept for system messages.
    ReservedIdentity,
    /// The peer's IP address is on the ban list.
    Banned,
    /// A session from the same address is already admitted.
    DuplicateAddress,
}

/// Why the relay of one connection ended without a farewell.
#[derive(Clone, Copy, Debug, PartialEq, Eq, Structural)]
pub enum ConnectionFault {
    /// The peer sent frames in an order, or of a kind, that the protocol does
    /// not know.
    ProtocolViolation,
    /// The connection ended or failed underneath the relay.
    TransportError,
}

/// The challenge of the handshake could not be sealed.
#[derive(Debug)]
pub struct SealError {
    /// What the cipher reported.
    pub cause: anyhow::Error,
}

/// What a client can find wrong with what the server sends.
#[derive(Debug, PartialEq, Eq)]
pub enum ClientError {
    /// A frame from the server was not a text frame.
    IncomingMessageFormat,
    /// The challenge of the handshake is not base64 text.
    PasswordErrorBase64(base64::DecodeError),
    /// The challenge does not open to the sentinel with the password at hand.
    BadPassword,
}

impl ClientError {
    /// The sentence that describes the error.
    pub open spec fn spec_message(&self) -> Seq<char> {
        match self {
            ClientError::IncomingMessageFormat => "Message from server was not the expected format"@,
            ClientError::PasswordErrorBase64(_) => "Server sent beck malformed password test string"@,
            ClientError::BadPassword => "Password decrypted test string did not match expected string"@,
        }
    }

    /// The sentence that describes the error.
    pub fn message(&self) -> (sentence: String)
        ensures
            sentence@ == self.spec_message(),
    {
        match self {
            ClientError::IncomingMessageFormat => "Message from server was not the expected format".to_owned(),
            ClientError::PasswordErrorBase64(_) => "Server sent beck malformed password test string".to_owned(),
            ClientError::BadPassword => "Password decrypted test string did not match expected string".to_owned(),
        }
    }
}

} // verus!
