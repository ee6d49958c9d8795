//! Best-effort decoding of text payloads that may be base-64 encoded.

use vstd::prelude::*;
use vstd::string::*;
use vstd::utf8::*;

verus! {

/// What the standard base-64 engine (standard alphabet, canonical padding
/// required) decodes `input` to: the bytes, or `None` where it rejects the
/// input.
pub uninterp spec fn base64_standard_decode(input: Seq<char>) -> Option<Seq<u8>>;

/// The view of an optional byte vector.
pub open spec fn bytes_view(bytes: Option<Vec<u8>>) -> Option<Seq<u8>> {
    match bytes {
        Some(b) => Some(b@),
        None => None,
    }
}

/// The text that a payload stands for, given what base-64 decoding made of
/// it: the decoded bytes read as UTF-8 where decoding succeeded and the
/// bytes are valid UTF-8, else the payload itself.
pub open spec fn decoded_from(payload: Seq<char>, decoded: Option<Seq<u8>>) -> Seq<char> {
    match decoded {
        Some(bytes) => if valid_utf8(bytes) {
            decode_utf8(bytes)
        } else {
            payload
        },
        None => payload,
    }
}

/// The text that a payload stands for. An empty payload is empty text.
pub open spec fn decoded_text(payload: Seq<char>) -> Seq<char> {
    if payload.len() == 0 {
        Seq::empty()
    } else {
        decoded_from(payload, base64_standard_decode(payload))
    }
}

/// Calls `Engine::decode` of the crate `base64` on its `STANDARD` engine.
/// Trusted: the result is the engine's output for this input, a function of
/// the input alone; a rejected input gives `None`.
#[verifier::external_body]
fn base64_decode(s: &str) -> (r: Option<Vec<u8>>)
    ensures
        bytes_view(r) == base64_standard_decode(s@),
{
    match base64::Engine::decode(&base64::engine::general_purpose::STANDARD, s) {
        Ok(bytes) => Some(bytes),
        Err(_) => None,
    }
}

/// Calls `String::from_utf8`. Trusted: it succeeds exactly on valid UTF-8,
/// and the string then holds the characters that the bytes encode.
#[verifier::external_body]
fn text_from_utf8(bytes: Vec<u8>) -> (r: Option<String>)
    ensures
        r is Some <==> valid_utf8(bytes@),
        r is Some ==> r->0@ == decode_utf8(bytes@),
{
    match String::from_utf8(bytes) {
        Ok(text) => Some(text),
        Err(_) => None,
    }
}

/// Chooses between the decoded bytes and the payload itself.
pub fn decode_with(payload: &str, decoded: Option<Vec<u8>>) -> (text: String)
    ensures
        text@ == decoded_from(payload@, bytes_view(decoded)),
{
    match decoded {
        Some(bytes) => match text_from_utf8(bytes) {
            Some(text) => text,
            None => String::from_str(payload),
        },
        None => String::from_str(payload),
    }
}

/// Decodes a payload that is either base-64 encoded UTF-8 text or plain
/// text already. Never fails: what does not decode is returned as it is.
pub fn decode_b64(payload: &str) -> (text: String)
    ensures
        text@ == decoded_text(payload@),
        payload@.len() == 0 ==> text@.len() == 0,
        payload@.len() > 0 && base64_standard_decode(payload@) is None ==> text@ == payload@,
{
    if payload.is_empty() {
        return String::new();
    }
    let decoded = base64_decode(payload);
    decode_with(payload, decoded)
}

/// A non-empty payload whose base-64 decoding is the UTF-8 encoding of a
/// text stands for that text.
pub proof fn lemma_decoded_text_of_encoding(payload: Seq<char>, text: Seq<char>)
    requires
        payload.len() > 0,
        base64_standard_decode(payload) == Some(encode_utf8(text)),
    ensures
        decoded_text(payload) == text,
{
    encode_utf8_valid_utf8(text);
    encode_utf8_decode_utf8(text);
}

/// A payload that base-64 decoding rejects, or whose decoded bytes are not
/// valid UTF-8, stands for itself; the empty payload stands for empty text.
pub proof fn lemma_decoded_text_fallback(payload: Seq<char>)
    ensures
        payload.len() == 0 ==> decoded_text(payload) == Seq::<char>::empty(),
        base64_standard_decode(payload) is None ==> decoded_text(payload) =~= payload,
        base64_standard_decode(payload) is Some && !valid_utf8(
            base64_standard_decode(payload)->0,
        ) ==> decoded_text(payload) =~= payload,
{
}

} // verus!
