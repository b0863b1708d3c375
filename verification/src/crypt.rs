//! The shared-secret challenge of the handshake.
//!
//! On a successful upgrade the server hands the client a fixed sentinel,
//! sealed with the shared secret where one is configured, as base64 text under
//! a well-known header. A client that knows the secret opens the seal and
//! finds the sentinel; a client without a secret reads the sentinel directly.
//! The challenge protects the client from a wrong password; the server learns
//! nothing from it.

use crate::base64_serialize::{
    base64_bytes, base64_length, base64_text, deserialize, is_base64_alphabet, serialize,
};
use crate::error::{ClientError, SealError};
use crate::text::bytes_equal;
use vstd::prelude::*;
use vstd::string::{StrSliceExecFns, StringSliceAdditionalSpecFns};
use vstd::utf8::encode_utf8;

verus! {

/// The error of the cipher, carried through as it is.
#[verifier::external_type_specification]
#[verifier::external_body]
pub struct ExSealFailure(anyhow::Error);

/// Header under which the server sends the challenge.
pub const CRYPT_VALIDATION_KEY: &'static str = "msger_crypt";

/// The sentinel that the challenge holds once it is opened.
pub const CRYPT_VALIDATION_VAL: &'static str = "Decrypt me";

/// The bytes of the sentinel.
pub open spec fn sentinel() -> Seq<u8> {
    CRYPT_VALIDATION_VAL.spec_bytes()
}

/// The sentinel is ten bytes long.
pub proof fn lemma_sentinel_length()
    ensures
        sentinel().len() == 10,
{
    reveal_strlit("Decrypt me");
    assert(vstd::utf8::is_ascii_chars(CRYPT_VALIDATION_VAL@));
    vstd::utf8::is_ascii_chars_encode_utf8(CRYPT_VALIDATION_VAL@);
}

/// What `simple_crypt::decrypt` makes of `sealed` under `password`; `None`
/// where it fails.
pub uninterp spec fn opened(sealed: Seq<u8>, password: Seq<u8>) -> Option<Seq<u8>>;

/// The longest password that the key derivation takes, in bytes.
pub const MAX_PASSWORD_LENGTH: u64 = 0xFFFF_FFFF;

/// The longest plaintext that the cipher takes, in bytes.
pub const MAX_PLAINTEXT_LENGTH: u64 = 0x10_0000_0000;

/// Contract of `simple_crypt::encrypt`, taken on trust.
///
/// The function draws a salt and a nonce at random, so nothing is said of the
/// bytes themselves. Whatever was drawn, `simple_crypt::decrypt` opens the
/// result to `data` under the same password, and the result is longer than
/// `data`: it holds the salt and the nonce beside the ciphertext. The call
/// fails only on length: where the password is longer than the key derivation
/// takes, or the data longer than the cipher takes.
pub assume_specification[ simple_crypt::encrypt ](data: &[u8], password: &[u8]) -> (sealed: Result<
    Vec<u8>,
    anyhow::Error,
>)
    ensures
        sealed matches Ok(bytes) ==> opened(bytes@, password@) == Some(data@),
        sealed matches Ok(bytes) ==> bytes@.len() > data@.len(),
        password@.len() <= MAX_PASSWORD_LENGTH && data@.len() <= MAX_PLAINTEXT_LENGTH
            ==> sealed is Ok,
;

/// Contract of `simple_crypt::decrypt`, taken on trust.
///
/// The function reads nothing but its two arguments, so its result has a
/// name: [`opened`]. It fails exactly where `opened` is `None`.
pub assume_specification[ simple_crypt::decrypt ](data: &[u8], password: &[u8]) -> (plain: Result<
    Vec<u8>,
    anyhow::Error,
>)
    ensures
        match plain {
            Ok(bytes) => opened(data@, password@) == Some(bytes@),
            Err(_) => opened(data@, password@) is None,
        },
;

/// Whether the bytes under a challenge, once any seal is opened with
/// `password`, are the sentinel. Without a password the bytes are read as
/// they are.
pub open spec fn unseals(sealed: Seq<u8>, password: Option<Seq<char>>) -> bool {
    match password {
        None => sealed == sentinel(),
        Some(password) => opened(sealed, encode_utf8(password)) == Some(sentinel()),
    }
}

/// Whether a client that holds `password` accepts the challenge `header`.
pub open spec fn challenge_opens(header: Seq<char>, password: Option<Seq<char>>) -> bool {
    match base64_bytes(header) {
        None => false,
        Some(sealed) => unseals(sealed, password),
    }
}

/// Whether `text` can stand as the value of a header: visible ASCII
/// characters and nothing else.
pub open spec fn is_header_text(text: Seq<char>) -> bool {
    forall|i: int| 0 <= i < text.len() ==> ' ' <= #[trigger] text[i] <= '~'
}

/// Text in the base64 alphabet can stand as the value of a header.
pub proof fn lemma_base64_is_header_text(text: Seq<char>)
    requires
        is_base64_alphabet(text),
    ensures
        is_header_text(text),
{
}

/// Whether a secret is short enough for the key derivation.
pub open spec fn sealable(secret: Seq<char>) -> bool {
    encode_utf8(secret).len() <= MAX_PASSWORD_LENGTH
}

/// The challenge header for what sealing the sentinel gave: the base64 text of
/// the sealed bytes, or the cipher's failure.
pub fn challenge_of(sealed: Result<Vec<u8>, anyhow::Error>) -> (challenge: Result<String, SealError>)
    ensures
        match sealed {
            Ok(bytes) => (challenge matches Ok(text) && text@ == base64_text(bytes@)
                && base64_bytes(text@) == Some(bytes@) && text@.len() == base64_length(
                bytes@.len(),
            ) && is_header_text(text@)),
            Err(_) => challenge is Err,
        },
{
    match sealed {
        Ok(bytes) => {
            let text = serialize(&bytes);
            proof {
                lemma_base64_is_header_text(text@);
            }
            Ok(text)
        },
        Err(cause) => Err(SealError { cause }),
    }
}

/// The value of the challenge header that the server sends.
///
/// Without a secret the challenge is the sentinel itself and cannot fail.
/// With one, the sentinel is sealed under the secret, which fails only for a
/// secret too long for the key derivation. Whatever the cipher drew, a client
/// that holds the same secret accepts the result, and a client that holds
/// none refuses it. The challenge can stand as the value of a header.
pub fn make_challenge(secret: &Option<String>) -> (challenge: Result<String, SealError>)
    ensures
        secret is None ==> (challenge matches Ok(text) && text@ == base64_text(sentinel())),
        secret matches Some(password) ==> (sealable(password@) ==> challenge is Ok),
        challenge matches Ok(text) ==> challenge_opens(text@, secret.deep_view()),
        challenge matches Ok(text) ==> (secret is Some ==> !challenge_opens(text@, None)),
        challenge matches Ok(text) ==> is_header_text(text@),
{
    proof {
        lemma_sentinel_length();
    }
    match secret {
        None => {
            let plain = CRYPT_VALIDATION_VAL.as_bytes_vec();
            let text = serialize(&plain);
            proof {
                lemma_base64_is_header_text(text@);
            }
            Ok(text)
        },
        Some(password) => {
            let sealed = simple_crypt::encrypt(
                CRYPT_VALIDATION_VAL.as_bytes(),
                password.as_str().as_bytes(),
            );
            challenge_of(sealed)
        },
    }
}

/// Judges what opening a challenge gave: only the sentinel passes.
pub fn judge_opened(plain: Result<Vec<u8>, anyhow::Error>) -> (verdict: Result<(), ClientError>)
    ensures
        verdict is Ok <==> (plain matches Ok(bytes) && bytes@ == sentinel()),
        verdict matches Err(e) ==> e is BadPassword,
{
    match plain {
        Ok(bytes) => {
            if bytes_equal(bytes.as_slice(), CRYPT_VALIDATION_VAL.as_bytes()) {
                Ok(())
            } else {
                Err(ClientError::BadPassword)
            }
        },
        Err(_) => Err(ClientError::BadPassword),
    }
}

/// Checks the challenge header that the server sent against the password at
/// hand, if any.
///
/// The header must be base64 text; what it holds must be the sentinel, after
/// opening the seal where a password is at hand.
pub fn verify_challenge(header_value: &str, maybe_password: &Option<String>) -> (verdict: Result<
    (),
    ClientError,
>)
    ensures
        verdict is Ok <==> challenge_opens(header_value@, maybe_password.deep_view()),
        verdict matches Err(e) ==> (e is PasswordErrorBase64 <==> base64_bytes(header_value@)
            is None),
        verdict matches Err(e) ==> (e is BadPassword <==> base64_bytes(header_value@) is Some),
{
    let sealed = match deserialize(header_value) {
        Ok(bytes) => bytes,
        Err(refusal) => {
            return Err(ClientError::PasswordErrorBase64(refusal.cause));
        },
    };
    match maybe_password {
        Some(password) => judge_opened(
            simple_crypt::decrypt(sealed.as_slice(), password.as_str().as_bytes()),
        ),
        None => judge_opened(Ok(sealed)),
    }
}

} // verus!
