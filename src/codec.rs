//! Decoding of the transport-encoded keys and values of event attributes.
use base64::Engine;
use vstd::prelude::*;

verus! {

/// The bytes that the standard base64 alphabet, with padding, decodes a text
/// to; `None` where the text is not valid base64.
pub uninterp spec fn base64_decoded(text: Seq<char>) -> Option<Seq<u8>>;

/// The text that a byte sequence reads as in UTF-8; `None` where the bytes are
/// not valid UTF-8.
pub uninterp spec fn utf8_decoded(bytes: Seq<u8>) -> Option<Seq<char>>;

/// Relies on base64's `STANDARD` engine and its `Engine::decode`: the decoded
/// bytes, or an error where the text is not valid base64.
#[verifier::external_body]
fn decode_base64(text: &str) -> (r: Option<Vec<u8>>)
    ensures
        r is Some <==> base64_decoded(text@) is Some,
        r is Some ==> base64_decoded(text@) == Some(r->0@),
{
    base64::engine::general_purpose::STANDARD.decode(text).ok()
}

/// Relies on `String::from_utf8`: the text the bytes spell, or an error where
/// they are not valid UTF-8.
#[verifier::external_body]
fn decode_utf8(bytes: Vec<u8>) -> (r: Option<String>)
    ensures
        r is Some <==> utf8_decoded(bytes@) is Some,
        r is Some ==> utf8_decoded(bytes@) == Some(r->0@),
{
    String::from_utf8(bytes).ok()
}

/// The text that a decoded attribute, or a failed decoding, stands for.
pub open spec fn text_or_empty(decoded: Option<Seq<char>>) -> Seq<char> {
    match decoded {
        Some(t) => t,
        None => Seq::empty(),
    }
}

/// The plain text of a transport-encoded attribute key or value: base64, then
/// UTF-8; empty where either step fails.
pub open spec fn attribute_text(encoded: Seq<char>) -> Seq<char> {
    match base64_decoded(encoded) {
        Some(bytes) => text_or_empty(utf8_decoded(bytes)),
        None => Seq::empty(),
    }
}

/// Keeps a decoded text, or gives the empty text for a failed decoding.
pub fn decoded_or_empty(decoded: Option<String>) -> (r: String)
    ensures
        r@ == text_or_empty(match decoded {
            Some(s) => Some(s@),
            None => None,
        }),
{
    match decoded {
        Some(s) => s,
        None => String::new(),
    }
}

/// Decodes one transport-encoded attribute key or value. A garbled input gives
/// the empty text rather than an error.
pub fn to_utf8(encoded: &str) -> (r: String)
    ensures
        r@ == attribute_text(encoded@),
{
    match decode_base64(encoded) {
        Some(bytes) => decoded_or_empty(decode_utf8(bytes)),
        None => String::new(),
    }
}

} // verus!
