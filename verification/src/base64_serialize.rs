//! Base64 coding of binary payloads, so that they travel inside a text envelope.

use base64::prelude::BASE64_STANDARD;
use base64::Engine;
use vstd::prelude::*;

verus! {

/// The error of the base64 engine, carried through as it is.
#[verifier::external_type_specification]
#[verifier::external_body]
pub struct ExDecodeError(base64::DecodeError);

/// The text that the standard, padded base64 engine writes for `bytes`.
pub uninterp spec fn base64_text(bytes: Seq<u8>) -> Seq<char>;

/// The bytes that the standard, padded base64 engine reads from `text`;
/// `None` where the engine refuses the text.
pub uninterp spec fn base64_bytes(text: Seq<char>) -> Option<Seq<u8>>;

/// Whether `c` is a symbol of padded standard base64: a letter, a digit,
/// `+`, `/`, or the padding sign `=`.
pub open spec fn is_base64_symbol(c: char) -> bool {
    ||| 'A' <= c && c <= 'Z'
    ||| 'a' <= c && c <= 'z'
    ||| '0' <= c && c <= '9'
    ||| c == '+'
    ||| c == '/'
    ||| c == '='
}

/// Whether `text` is made of symbols of padded standard base64 alone.
pub open spec fn is_base64_alphabet(text: Seq<char>) -> bool {
    forall|i: int| 0 <= i < text.len() ==> is_base64_symbol(#[trigger] text[i])
}

/// The length of the padded base64 text for `count` bytes: four symbols for
/// every three bytes, the last group filled up.
pub open spec fn base64_length(count: nat) -> nat {
    ((count + 2) / 3 * 4) as nat
}

/// Calls `Engine::encode` of the crate `base64` on its `STANDARD` engine.
///
/// Taken on trust: the result is the engine's encoding of `bytes`; it is
/// made of the standard alphabet and the padding sign, four symbols for
/// every three bytes begun; and the same engine decodes it back to `bytes`.
/// The engine panics only where the encoded length overflows `usize`, which
/// no slice is long enough to cause.
#[verifier::external_body]
fn encode_standard(bytes: &[u8]) -> (text: String)
    ensures
        text@ == base64_text(bytes@),
        base64_bytes(text@) == Some(bytes@),
        text@.len() == base64_length(bytes@.len()),
        is_base64_alphabet(text@),
{
    BASE64_STANDARD.encode(bytes)
}

/// Calls `Engine::decode` of the crate `base64` on its `STANDARD` engine.
///
/// Taken on trust: the result is the engine's decoding of `text`, and an
/// error exactly where the engine refuses the text.
#[verifier::external_body]
fn decode_standard(text: &str) -> (decoded: Result<Vec<u8>, base64::DecodeError>)
    ensures
        match decoded {
            Ok(bytes) => base64_bytes(text@) == Some(bytes@),
            Err(_) => base64_bytes(text@) is None,
        },
{
    BASE64_STANDARD.decode(text)
}

/// A payload field that does not hold base64 text.
#[derive(Debug)]
pub struct InvalidPayload {
    /// What the base64 engine objected to.
    pub cause: base64::DecodeError,
}

/// The text form of a binary payload.
///
/// What `serialize` writes, [`deserialize`] reads back unchanged. The text
/// holds nothing but base64 symbols, so it can stand in any text field.
pub fn serialize(v: &Vec<u8>) -> (text: String)
    ensures
        text@ == base64_text(v@),
        base64_bytes(text@) == Some(v@),
        text@.len() == base64_length(v@.len()),
        is_base64_alphabet(text@),
{
    encode_standard(v.as_slice())
}

/// The binary payload that a text form stands for.
pub fn deserialize(base64: &str) -> (payload: Result<Vec<u8>, InvalidPayload>)
    ensures
        match payload {
            Ok(bytes) => base64_bytes(base64@) == Some(bytes@),
            Err(_) => base64_bytes(base64@) is None,
        },
{
    match decode_standard(base64) {
        Ok(bytes) => Ok(bytes),
        Err(cause) => Err(InvalidPayload { cause }),
    }
}

} // verus!
