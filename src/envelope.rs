//! Envelope encryption: a JSON payload in canonical form, sealed under a
//! 256-bit key with a fresh 96-bit nonce, and carried as base64 text.
use aes_gcm_siv::aead::{Aead, KeyInit};
use vstd::prelude::*;
use vstd::utf8::encode_utf8;

use crate::codec::{base64_decoded, base64_of, decode_base64, encode_base64};
use crate::misuse::MisuseCode;

verus! {

/// serde_json's JSON value: a payload, carried through without looking inside.
#[verifier::external_type_specification]
#[verifier::external_body]
pub struct ExJsonValue(serde_json::Value);

/// Bytes in a key of the cipher.
pub const KEY_LEN: usize = 32;

/// Bytes in a nonce of the cipher.
pub const NONCE_LEN: usize = 12;

/// The longest plaintext that the cipher seals.
pub const MAX_PLAINTEXT_LEN: u64 = 68719476736;

/// The wire form of one encrypted delivery: ciphertext and nonce, both base64.
#[derive(Clone, Debug)]
pub struct Envelope {
    pub encrypted: String,
    pub nonce: String,
}

/// Why a payload could not be put in an envelope.
#[derive(Clone, Copy, Debug, PartialEq, Eq, Structural)]
pub enum EncryptError {
    /// The payload holds a value that canonical JSON cannot represent.
    NotCanonicalizable,
    /// The canonical text is longer than the cipher accepts.
    TooLong,
}

/// AES-256-GCM-SIV ciphertext (with its tag) of a plaintext, with no
/// associated data.
pub uninterp spec fn aead_sealed(key: Seq<u8>, nonce: Seq<u8>, plaintext: Seq<u8>) -> Seq<u8>;

/// What AES-256-GCM-SIV opening makes of a ciphertext: `None` where the tag
/// does not authenticate it.
pub uninterp spec fn aead_opened(key: Seq<u8>, nonce: Seq<u8>, ciphertext: Seq<u8>) -> Option<Seq<u8>>;

/// The value that serde_json reads from a byte string: `None` unless it is
/// one JSON value (UTF-8, well formed, nested no deeper than its limit).
pub uninterp spec fn parsed_json_of(b: Seq<u8>) -> Option<serde_json::Value>;

/// The RFC 8785 canonical text of a JSON value: `None` where the value holds
/// a number that the canonical form cannot write.
pub uninterp spec fn canonical_json_of(v: serde_json::Value) -> Option<Seq<char>>;

/// Whether serde_json reads a byte string as one JSON value.
pub open spec fn is_json_document(b: Seq<u8>) -> bool {
    parsed_json_of(b) is Some
}

/// Relies on aes-gcm-siv's `Aes256GcmSiv::encrypt`: it fails only on a
/// plaintext over its limit, and its ciphertext opens to the plaintext.
#[verifier::external_body]
fn aead_seal(key: &[u8], nonce: &[u8], plaintext: &[u8]) -> (r: Option<Vec<u8>>)
    requires
        key@.len() == KEY_LEN,
        nonce@.len() == NONCE_LEN,
    ensures
        r is Some <==> plaintext@.len() <= MAX_PLAINTEXT_LEN,
        r matches Some(c) ==> c@ == aead_sealed(key@, nonce@, plaintext@),
        r matches Some(c) ==> aead_opened(key@, nonce@, c@) == Some(plaintext@),
{
    let cipher = aes_gcm_siv::Aes256GcmSiv::new(aes_gcm_siv::Key::<aes_gcm_siv::Aes256GcmSiv>::from_slice(key));
    cipher.encrypt(aes_gcm_siv::Nonce::from_slice(nonce), plaintext).ok()
}

/// Relies on aes-gcm-siv's `Aes256GcmSiv::decrypt`: the plaintext, or `None`
/// where the ciphertext does not authenticate.
#[verifier::external_body]
fn aead_open(key: &[u8], nonce: &[u8], ciphertext: &[u8]) -> (r: Option<Vec<u8>>)
    requires
        key@.len() == KEY_LEN,
        nonce@.len() == NONCE_LEN,
    ensures
        r matches Some(p) ==> aead_opened(key@, nonce@, ciphertext@) == Some(p@),
        r is None ==> aead_opened(key@, nonce@, ciphertext@) is None,
{
    let cipher = aes_gcm_siv::Aes256GcmSiv::new(aes_gcm_siv::Key::<aes_gcm_siv::Aes256GcmSiv>::from_slice(key));
    cipher.decrypt(aes_gcm_siv::Nonce::from_slice(nonce), ciphertext).ok()
}

/// Relies on rand's `thread_rng` filling a 12-byte buffer; nothing is known
/// of the bytes.
#[verifier::external_body]
fn generate_nonce() -> (r: Vec<u8>)
    ensures
        r@.len() == NONCE_LEN,
{
    let mut nonce = [0u8; 12];
    rand::Rng::fill(&mut rand::thread_rng(), &mut nonce);
    nonce.to_vec()
}

/// Relies on json-canon's `to_string`: the RFC 8785 text of the value, which
/// depends on the value alone, or `None` where it has a number it cannot
/// write.
#[verifier::external_body]
fn canonical_text(value: &serde_json::Value) -> (r: Option<String>)
    ensures
        r matches Some(t) ==> canonical_json_of(*value) == Some(t@),
        r is None ==> canonical_json_of(*value) is None,
{
    json_canon::to_string(value).ok()
}

/// Relies on serde_json's `from_slice` into a `Value`: the value read, which
/// depends on the bytes alone, or `None` where they are not one JSON value.
#[verifier::external_body]
fn parse_json(b: &[u8]) -> (r: Option<serde_json::Value>)
    ensures
        r == parsed_json_of(b@),
{
    serde_json::from_slice(b).ok()
}

/// The plaintext inside an envelope's fields under a key: `None` where either
/// field is not base64, the nonce is not 12 bytes, or the ciphertext does not
/// authenticate.
pub open spec fn envelope_plaintext(encrypted: Seq<char>, nonce: Seq<char>, key: Seq<u8>) -> Option<Seq<u8>> {
    match (base64_decoded(encrypted), base64_decoded(nonce)) {
        (Some(c), Some(n)) => if n.len() == NONCE_LEN {
            aead_opened(key, n, c)
        } else {
            None
        },
        _ => None,
    }
}

/// The misuse that decrypting an envelope under a key comes to, or `None`
/// where it yields a JSON document.
pub open spec fn decryption_misuse(encrypted: Seq<char>, nonce: Seq<char>, key: Seq<u8>) -> Option<MisuseCode> {
    match envelope_plaintext(encrypted, nonce, key) {
        None => Some(MisuseCode::ProtocolDecryptionFailed),
        Some(p) => if is_json_document(p) {
            None
        } else {
            Some(MisuseCode::ProtocolDeserializationFailed)
        },
    }
}

/// What decrypting an envelope under a key gives: the JSON value read from
/// its plaintext, or the misuse.
pub open spec fn decryption_result(encrypted: Seq<char>, nonce: Seq<char>, key: Seq<u8>) -> Result<serde_json::Value, MisuseCode> {
    match envelope_plaintext(encrypted, nonce, key) {
        None => Err(MisuseCode::ProtocolDecryptionFailed),
        Some(p) => match parsed_json_of(p) {
            Some(v) => Ok(v),
            None => Err(MisuseCode::ProtocolDeserializationFailed),
        },
    }
}

/// Whether a text is a usable key: base64 of exactly 32 bytes.
pub open spec fn is_key_text(key: Seq<char>) -> bool {
    base64_decoded(key) matches Some(k) && k.len() == KEY_LEN
}

/// The canonical JSON text of a value: sorted keys, no insignificant
/// whitespace, fixed number formatting.
pub fn canonize_json(value: &serde_json::Value) -> (r: Result<String, EncryptError>)
    ensures
        r is Ok <==> canonical_json_of(*value) is Some,
        r matches Ok(t) ==> canonical_json_of(*value) == Some(t@),
        r matches Err(e) ==> e == EncryptError::NotCanonicalizable,
{
    match canonical_text(value) {
        Some(t) => Ok(t),
        None => Err(EncryptError::NotCanonicalizable),
    }
}

/// Seals a plaintext under a key and a nonce and writes both as base64.
pub fn seal_envelope(plaintext: &[u8], key: &[u8], nonce: &[u8]) -> (r: Result<Envelope, EncryptError>)
    requires
        key@.len() == KEY_LEN,
        nonce@.len() == NONCE_LEN,
    ensures
        r is Ok <==> plaintext@.len() <= MAX_PLAINTEXT_LEN,
        r matches Err(e) ==> e == EncryptError::TooLong,
        r matches Ok(env) ==> env.encrypted@ == base64_of(aead_sealed(key@, nonce@, plaintext@)),
        r matches Ok(env) ==> env.nonce@ == base64_of(nonce@),
        r matches Ok(env) ==> envelope_plaintext(env.encrypted@, env.nonce@, key@) == Some(plaintext@),
{
    match aead_seal(key, nonce, plaintext) {
        Some(ciphertext) => {
            let encrypted = encode_base64(ciphertext.as_slice());
            let nonce_text = encode_base64(nonce);
            Ok(Envelope { encrypted, nonce: nonce_text })
        },
        None => Err(EncryptError::TooLong),
    }
}

/// Encrypts a payload: its canonical JSON text, sealed under `key` with a
/// nonce drawn fresh for this call. What comes out opens under the same key
/// to exactly that text's UTF-8 bytes.
pub fn encrypt_envelope(data: &serde_json::Value, key: &Vec<u8>) -> (r: Result<Envelope, EncryptError>)
    requires
        key@.len() == KEY_LEN,
    ensures
        r is Ok <==> (canonical_json_of(*data) matches Some(t) && encode_utf8(t).len() <= MAX_PLAINTEXT_LEN),
        canonical_json_of(*data) is None ==> r == Err::<Envelope, EncryptError>(EncryptError::NotCanonicalizable),
        canonical_json_of(*data) matches Some(t) && encode_utf8(t).len() > MAX_PLAINTEXT_LEN
            ==> r == Err::<Envelope, EncryptError>(EncryptError::TooLong),
        r matches Ok(env) ==> exists|n: Seq<u8>| #![trigger base64_of(n)]
            n.len() == NONCE_LEN && env.nonce@ == base64_of(n)
            && env.encrypted@ == base64_of(aead_sealed(key@, n, encode_utf8(canonical_json_of(*data)->Some_0))),
        r matches Ok(env) ==> envelope_plaintext(env.encrypted@, env.nonce@, key@)
            == Some(encode_utf8(canonical_json_of(*data)->Some_0)),
{
    let text = canonize_json(data)?;
    let nonce = generate_nonce();
    let sealed = seal_envelope(text.as_str().as_bytes(), key.as_slice(), nonce.as_slice());
    sealed
}

/// Opens an envelope under a 32-byte key. Whatever goes wrong on the way
/// (a field that is not base64, a nonce of another length, a ciphertext that
/// does not authenticate) is a decryption failure.
pub fn open_envelope(envelope: &Envelope, key: &[u8]) -> (r: Result<Vec<u8>, MisuseCode>)
    requires
        key@.len() == KEY_LEN,
    ensures
        r matches Ok(p) ==> envelope_plaintext(envelope.encrypted@, envelope.nonce@, key@) == Some(p@),
        r matches Err(c) ==> c == MisuseCode::ProtocolDecryptionFailed
            && envelope_plaintext(envelope.encrypted@, envelope.nonce@, key@) is None,
{
    let ciphertext = match decode_base64(envelope.encrypted.as_str()) {
        Some(c) => c,
        None => return Err(MisuseCode::ProtocolDecryptionFailed),
    };
    let nonce = match decode_base64(envelope.nonce.as_str()) {
        Some(n) => n,
        None => return Err(MisuseCode::ProtocolDecryptionFailed),
    };
    if nonce.len() != NONCE_LEN {
        return Err(MisuseCode::ProtocolDecryptionFailed);
    }
    match aead_open(key, nonce.as_slice(), ciphertext.as_slice()) {
        Some(p) => Ok(p),
        None => Err(MisuseCode::ProtocolDecryptionFailed),
    }
}

/// Decrypts an envelope under a base64 key and reads its plaintext as JSON.
pub fn decrypt_envelope(envelope: &Envelope, key: &String) -> (r: Result<serde_json::Value, MisuseCode>)
    requires
        is_key_text(key@),
    ensures
        r == decryption_result(envelope.encrypted@, envelope.nonce@, base64_decoded(key@)->Some_0),
{
    let key_bytes = match decode_base64(key.as_str()) {
        Some(k) => k,
        None => return Err(MisuseCode::ProtocolDecryptionFailed),
    };
    let plaintext = open_envelope(envelope, key_bytes.as_slice())?;
    match parse_json(plaintext.as_slice()) {
        Some(v) => Ok(v),
        None => Err(MisuseCode::ProtocolDeserializationFailed),
    }
}

/// Round trip: a payload encrypted under a key (so that its envelope opens
/// to the UTF-8 of the payload's canonical text) decrypts under that key's
/// base64 text to the payload again, wherever serde_json reads that text
/// back as the same value.
pub proof fn lemma_round_trip(
    payload: serde_json::Value,
    encrypted: Seq<char>,
    nonce: Seq<char>,
    key_text: Seq<char>,
    key: Seq<u8>,
)
    requires
        key.len() == KEY_LEN,
        base64_decoded(key_text) == Some(key),
        canonical_json_of(payload) is Some,
        envelope_plaintext(encrypted, nonce, key) == Some(encode_utf8(canonical_json_of(payload)->Some_0)),
        parsed_json_of(encode_utf8(canonical_json_of(payload)->Some_0)) == Some(payload),
    ensures
        is_key_text(key_text),
        decryption_result(encrypted, nonce, base64_decoded(key_text)->Some_0) == Ok::<serde_json::Value, MisuseCode>(payload),
{
}

} // verus!
