//! Request authentication: an HMAC-SHA1 over the exact body bytes under a
//! shared secret, carried as base64 in the request's signature header.
use hmac::Mac;
use vstd::prelude::*;
use vstd::utf8::{encode_utf8, encode_utf8_decode_utf8};

use crate::codec::{base64_of, encode_base64};

verus! {

/// HMAC-SHA1 of a message under a key.
pub uninterp spec fn hmac_sha1_of(key: Seq<u8>, message: Seq<u8>) -> Seq<u8>;

/// Relies on hmac's `Hmac::<Sha1>`: `new_from_slice` takes a key of any
/// length, and `finalize` gives the 20-byte code of what `update` was fed.
#[verifier::external_body]
fn hmac_sha1(key: &[u8], message: &[u8]) -> (r: Vec<u8>)
    ensures
        r@ == hmac_sha1_of(key@, message@),
        r@.len() == 20,
{
    let mut mac = hmac::Hmac::<sha1::Sha1>::new_from_slice(key).unwrap();
    mac.update(message);
    mac.finalize().into_bytes().to_vec()
}

/// The signature of a request body under a secret: base64 of the HMAC-SHA1
/// of the body, keyed by the secret's UTF-8 bytes.
pub open spec fn request_token(body: Seq<u8>, secret: Seq<char>) -> Seq<char> {
    base64_of(hmac_sha1_of(encode_utf8(secret), body))
}

/// Whether a signature is the one that the body and the secret call for.
pub open spec fn signature_accepted(body: Seq<u8>, secret: Seq<char>, token: Seq<char>) -> bool {
    token == request_token(body, secret)
}

/// Signs a request body with a shared secret: 28 characters of base64.
pub fn generate_token(body: &[u8], secret: &str) -> (r: String)
    ensures
        r@ == request_token(body@, secret@),
        r@.len() == 28,
{
    let code = hmac_sha1(secret.as_bytes(), body);
    encode_base64(code.as_slice())
}

/// Compares two byte strings in time that depends on their lengths alone.
pub fn constant_time_eq(a: &[u8], b: &[u8]) -> (r: bool)
    ensures
        r == (a@ == b@),
{
    if a.len() != b.len() {
        return false;
    }
    let mut diff: u8 = 0;
    let mut i: usize = 0;
    assert(a@.subrange(0, 0) =~= b@.subrange(0, 0));
    while i < a.len()
        invariant
            a@.len() == b@.len(),
            i <= a@.len(),
            (diff == 0) == (a@.subrange(0, i as int) == b@.subrange(0, i as int)),
        decreases a@.len() - i,
    {
        let x = a[i];
        let y = b[i];
        let d = diff;
        assert((d | (x ^ y)) == 0 <==> (d == 0 && x == y)) by (bit_vector);
        proof {
            assert(a@.subrange(0, i + 1) == a@.subrange(0, i as int).push(x));
            assert(b@.subrange(0, i + 1) == b@.subrange(0, i as int).push(y));
            if a@.subrange(0, i + 1) == b@.subrange(0, i + 1) {
                assert(a@.subrange(0, i + 1)[i as int] == b@.subrange(0, i + 1)[i as int]);
                assert(a@.subrange(0, i as int) == a@.subrange(0, i + 1).drop_last());
                assert(b@.subrange(0, i as int) == b@.subrange(0, i + 1).drop_last());
            }
        }
        diff = d | (x ^ y);
        i = i + 1;
    }
    assert(a@.subrange(0, a@.len() as int) == a@);
    assert(b@.subrange(0, b@.len() as int) == b@);
    diff == 0
}

/// Checks a request's signature against the body as received and the shared
/// secret; the comparison does not stop at the first differing byte.
pub fn verify_with_secret(body: &[u8], secret: &str, token: &str) -> (r: bool)
    ensures
        r == signature_accepted(body@, secret@, token@),
{
    let expected = generate_token(body, secret);
    let same = constant_time_eq(expected.as_str().as_bytes(), token.as_bytes());
    proof {
        encode_utf8_decode_utf8(expected@);
        encode_utf8_decode_utf8(token@);
    }
    same
}

/// Signing a body and checking the signature with the same secret succeeds.
pub proof fn lemma_signed_body_verifies(body: Seq<u8>, secret: Seq<char>)
    ensures
        signature_accepted(body, secret, request_token(body, secret)),
{
}

} // verus!
