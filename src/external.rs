use vstd::prelude::*;
use base64::Engine;
use crypto::hashes::Digest;
use vstd::utf8::encode_utf8;

verus! {

/// SHA-512 digest of a byte string.
pub uninterp spec fn sha512_of(b: Seq<u8>) -> Seq<u8>;

/// Unpadded base64url text of a byte string.
pub uninterp spec fn b64url_of(b: Seq<u8>) -> Seq<char>;

/// A string written as a JSON string literal, quotes and escapes included.
pub uninterp spec fn json_string_of(s: Seq<char>) -> Seq<char>;

/// Relies on `crypto::hashes::sha::Sha512::digest` (iota-crypto): the digest
/// depends on the message alone and is 64 bytes long.
#[verifier::external_body]
pub(crate) fn sha512(msg: &[u8]) -> (r: Vec<u8>)
    ensures
        r@ == sha512_of(msg@),
        r@.len() == 64,
{
    crypto::hashes::sha::Sha512::digest(msg).to_vec()
}

/// A character of the URL-safe base64 alphabet.
pub open spec fn is_b64url_char(c: char) -> bool {
    ('A' <= c && c <= 'Z') || ('a' <= c && c <= 'z') || ('0' <= c && c <= '9') || c == '-' || c == '_'
}

/// Relies on base64's `URL_SAFE_NO_PAD` engine: the text depends on the
/// bytes alone, has the unpadded length that `encoded_len` gives (a slice is
/// never long enough for that length to overflow), and uses the URL-safe
/// alphabet only.
#[verifier::external_body]
pub(crate) fn b64url(b: &[u8]) -> (r: String)
    ensures
        r@ == b64url_of(b@),
        r@.len() == (4 * b@.len() + 2) / 3,
        forall|i: int| 0 <= i < r@.len() ==> is_b64url_char(#[trigger] r@[i]),
{
    base64::engine::general_purpose::URL_SAFE_NO_PAD.encode(b)
}

/// Relies on `serde_json::to_string` on a `str`, which does not fail: the
/// JSON string literal depends on the characters alone.
#[verifier::external_body]
pub(crate) fn json_string(s: &str) -> (r: String)
    ensures
        r@ == json_string_of(s@),
{
    serde_json::to_string(s).unwrap_or_default()
}

/// Relies on `std::str::from_utf8`: it succeeds exactly on valid UTF-8, and
/// then holds the characters whose encoding the bytes are.
#[verifier::external_body]
pub(crate) fn utf8_text(b: &[u8]) -> (r: Option<String>)
    ensures
        match r {
            Some(s) => encode_utf8(s@) == b@,
            None => forall|s: Seq<char>| encode_utf8(s) != b@,
        },
{
    match std::str::from_utf8(b) {
        Ok(s) => Some(s.to_string()),
        Err(_) => None,
    }
}

} // verus!
