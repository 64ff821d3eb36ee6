//! Base64 text for the bytes that cross the wire (ciphertexts, nonces, keys
//! and request signatures).
use base64::Engine;
use vstd::prelude::*;

verus! {

/// The standard, padded base64 text of a byte string.
pub uninterp spec fn base64_of(b: Seq<u8>) -> Seq<char>;

/// What the standard base64 decoder makes of a text: `None` where the text is
/// not base64.
pub uninterp spec fn base64_decoded(s: Seq<char>) -> Option<Seq<u8>>;

/// Relies on base64's `STANDARD.encode`: the padded text of the bytes (four
/// characters per started group of three bytes), which the same engine
/// decodes back to those bytes.
#[verifier::external_body]
pub(crate) fn encode_base64(b: &[u8]) -> (r: String)
    ensures
        r@ == base64_of(b@),
        r@.len() == 4 * ((b@.len() + 2) / 3),
        base64_decoded(r@) == Some(b@),
{
    base64::engine::general_purpose::STANDARD.encode(b)
}

/// Relies on base64's `STANDARD.decode`: the decoded bytes, or `None` on a
/// text that is not base64.
#[verifier::external_body]
pub(crate) fn decode_base64(s: &str) -> (r: Option<Vec<u8>>)
    ensures
        r matches Some(v) ==> base64_decoded(s@) == Some(v@),
        r is None ==> base64_decoded(s@) is None,
{
    base64::engine::general_purpose::STANDARD.decode(s).ok()
}

} // verus!
