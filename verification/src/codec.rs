//! Base64, UTF-8 and random bytes.

use vstd::prelude::*;
use vstd::utf8::*;

use crate::error::{AuthError, ErrorKind, ErrorV};

verus! {

/// What the standard alphabet with padding of `base64` decodes a text to: the bytes, or
/// the words of its error.
pub uninterp spec fn base64_decoded(text: Seq<char>) -> Result<Seq<u8>, Seq<char>>;

/// What the URL-safe alphabet without padding of `base64` decodes a text to, where the text
/// is in that notation.
pub uninterp spec fn base64url_decoded(text: Seq<char>) -> Option<Seq<u8>>;

/// The notation of bytes in the standard alphabet with padding of `base64`.
pub uninterp spec fn base64_text(bytes: Seq<u8>) -> Seq<char>;

/// The words of `std::string::FromUtf8Error` for bytes that are no UTF-8.
pub uninterp spec fn utf8_fault(bytes: Seq<u8>) -> Seq<char>;

/// What an outside function hands back: bytes, or the words of its error.
pub open spec fn bytes_outcome(r: Result<Vec<u8>, String>) -> Result<Seq<u8>, Seq<char>> {
    match r {
        Ok(b) => Ok(b@),
        Err(e) => Err(e@),
    }
}

/// Whether the text decodes to those bytes.
pub open spec fn decodes_to(text: Seq<char>, bytes: Seq<u8>) -> bool {
    base64_decoded(text) == Ok::<Seq<u8>, Seq<char>>(bytes)
}

/// Calls `decode` of `base64::engine::general_purpose::STANDARD`; an error is handed on in
/// its own words. The outcome depends on the text alone and goes by the name
/// `base64_decoded`.
#[verifier::external_body]
fn standard_decode(text: &str) -> (r: Result<Vec<u8>, String>)
    ensures
        bytes_outcome(r) == base64_decoded(text@),
{
    base64::Engine::decode(&base64::engine::general_purpose::STANDARD, text).map_err(
        |e| e.to_string(),
    )
}

/// Calls `encode` of `base64::engine::general_purpose::STANDARD`, whose text goes by the name
/// `base64_text`. It claims that `decode` of the same engine gives the bytes back.
#[verifier::external_body]
pub(crate) fn base64_encode(bytes: &[u8]) -> (r: String)
    ensures
        r@ == base64_text(bytes@),
        decodes_to(r@, bytes@),
{
    base64::Engine::encode(&base64::engine::general_purpose::STANDARD, bytes)
}

/// Calls `decode` of `base64::engine::general_purpose::URL_SAFE_NO_PAD`. The bytes depend on
/// the text alone and go by the name `base64url_decoded`.
#[verifier::external_body]
pub(crate) fn base64url_decode(text: &str) -> (r: Option<Vec<u8>>)
    ensures
        r is Some == base64url_decoded(text@) is Some,
        r is Some ==> r->0@ == base64url_decoded(text@)->0,
{
    base64::Engine::decode(&base64::engine::general_purpose::URL_SAFE_NO_PAD, text).ok()
}

/// Calls `String::from_utf8`: bytes that are UTF-8 become the text that they encode; an error
/// is handed on in its own words, which depend on the bytes alone.
#[verifier::external_body]
fn string_from_utf8(bytes: Vec<u8>) -> (r: Result<String, String>)
    ensures
        match r {
            Ok(s) => valid_utf8(bytes@) && s@ == decode_utf8(bytes@),
            Err(e) => !valid_utf8(bytes@) && e@ == utf8_fault(bytes@),
        },
{
    String::from_utf8(bytes).map_err(|e| e.to_string())
}

/// Calls `try_fill_bytes` of `rand::rngs::OsRng`, which fills the buffer with bytes from the
/// system's random source; `false` where the system has none to give. Nothing is claimed of
/// the bytes themselves.
#[verifier::external_body]
pub(crate) fn fill_random(buf: &mut [u8]) -> (r: bool)
    ensures
        final(buf)@.len() == old(buf)@.len(),
{
    rand::RngCore::try_fill_bytes(&mut rand::rngs::OsRng, buf).is_ok()
}

/// The outcome of decoding to bytes.
pub open spec fn blob_outcome(r: Result<Vec<u8>, AuthError>) -> Result<Seq<u8>, ErrorV> {
    match r {
        Ok(b) => Ok(b@),
        Err(e) => Err(e@),
    }
}

/// The outcome of decoding to a text.
pub open spec fn text_outcome(r: Result<String, AuthError>) -> Result<Seq<char>, ErrorV> {
    match r {
        Ok(s) => Ok(s@),
        Err(e) => Err(e@),
    }
}

/// The bytes that a base64 text stands for.
pub open spec fn base64_bytes(text: Seq<char>) -> Result<Seq<u8>, ErrorV> {
    match base64_decoded(text) {
        Ok(b) => Ok(b),
        Err(e) => Err(ErrorV { kind: ErrorKind::Base64, detail: e }),
    }
}

/// Decodes base64 with padding.
pub fn base64_decode(text: &str) -> (r: Result<Vec<u8>, AuthError>)
    ensures
        blob_outcome(r) == base64_bytes(text@),
{
    match standard_decode(text) {
        Ok(b) => Ok(b),
        Err(e) => Err(AuthError::with(ErrorKind::Base64, e)),
    }
}

/// The text that bytes encode in UTF-8.
pub open spec fn utf8_text(bytes: Seq<u8>) -> Result<Seq<char>, ErrorV> {
    if valid_utf8(bytes) {
        Ok(decode_utf8(bytes))
    } else {
        Err(ErrorV { kind: ErrorKind::Utf8, detail: utf8_fault(bytes) })
    }
}

/// Decodes UTF-8.
pub fn utf8_decode(bytes: Vec<u8>) -> (r: Result<String, AuthError>)
    ensures
        text_outcome(r) == utf8_text(bytes@),
{
    match string_from_utf8(bytes) {
        Ok(s) => Ok(s),
        Err(e) => Err(AuthError::with(ErrorKind::Utf8, e)),
    }
}

/// Bytes that encode a text are read as that text, and no others are read; a text in base64 is
/// read as the bytes that it decodes to, and a fault is told in the decoder's words.
pub proof fn law_decoding_undoes_encoding(text: Seq<char>, bytes: Seq<u8>, notation: Seq<char>)
    ensures
        utf8_text(encode_utf8(text)) == Ok::<Seq<char>, ErrorV>(text),
        utf8_text(bytes) is Ok ==> encode_utf8(utf8_text(bytes)->Ok_0) == bytes,
        utf8_text(bytes) is Err ==> utf8_text(bytes)->Err_0.kind == ErrorKind::Utf8
            && utf8_text(bytes)->Err_0.detail == utf8_fault(bytes),
        decodes_to(notation, bytes) ==> base64_bytes(notation) == Ok::<Seq<u8>, ErrorV>(bytes),
        base64_bytes(notation) is Ok ==> decodes_to(notation, base64_bytes(notation)->Ok_0),
        base64_bytes(notation) is Err ==> base64_bytes(notation)->Err_0.kind == ErrorKind::Base64
            && base64_decoded(notation) == Err::<Seq<u8>, Seq<char>>(
            base64_bytes(notation)->Err_0.detail,
        ),
{
    encode_utf8_valid_utf8(text);
    encode_utf8_decode_utf8(text);
    if valid_utf8(bytes) {
        decode_utf8_encode_utf8(bytes);
    }
}

} // verus!
