use aes_gcm_siv::aead::{Aead, KeyInit, OsRng, Payload};
use aes_gcm_siv::Aes256GcmSiv;
use base64::engine::general_purpose::STANDARD as BASE64_STANDARD;
use base64::Engine;
use receipt_exchange::envelope::{
    canonize_json, decrypt_envelope, encrypt_envelope, open_envelope, seal_envelope, EncryptError,
    Envelope,
};
use receipt_exchange::misuse::MisuseCode;
use serde_json::Value;
use std::hash::{DefaultHasher, Hash, Hasher};

fn calculate_hash<T: Hash>(t: &T) -> u64 {
    let mut s = DefaultHasher::new();
    t.hash(&mut s);
    s.finish()
}

fn generate_hash(data: &Value) -> u64 {
    let canonicalized = match json_canon::to_string(data) {
        Ok(canonicalized) => canonicalized,
        Err(e) => panic!("Error canonicalizing JSON: {}", e),
    };
    calculate_hash(&canonicalized)
}

fn object(entries: Vec<(&str, Value)>) -> Value {
    let mut map = serde_json::Map::new();
    for (k, v) in entries {
        map.insert(k.to_string(), v);
    }
    Value::Object(map)
}

fn dummy_receipt() -> Value {
    object(vec![
        ("merchant_entity_id", Value::from("Amazon")),
        ("authorized", Value::from(4545)),
        ("amount", Value::from(3445)),
        ("authorization_id", Value::from("foo")),
        ("details", Value::Array(vec![])),
    ])
}

fn key_of(byte: u8) -> Vec<u8> {
    vec![byte; 32]
}

#[test]
fn test_encrypt_and_hash() {
    let data = dummy_receipt();

    let bytekey = Aes256GcmSiv::generate_key(&mut OsRng);
    let registration_hash = generate_hash(&data);
    let envelope = encrypt_envelope(&data, &bytekey.to_vec()).unwrap();

    let cipher = Aes256GcmSiv::new(&bytekey);
    let decrypted = cipher
        .decrypt(
            BASE64_STANDARD.decode(envelope.nonce).unwrap()[..].into(),
            Payload::from(&BASE64_STANDARD.decode(envelope.encrypted).unwrap()[..]),
        )
        .expect("Decryption works");
    assert_eq!(decrypted, "{\"amount\":3445,\"authorization_id\":\"foo\",\"authorized\":4545,\"details\":[],\"merchant_entity_id\":\"Amazon\"}".as_bytes());
    let canonical_json = String::from_utf8(decrypted).expect("Works");
    let deserialized: Value =
        serde_json::from_str(&canonical_json).expect("Deserialization should work");
    assert_eq!(deserialized["merchant_entity_id"], Value::from("Amazon"));

    let recalculated_hash = calculate_hash(&canonical_json);
    assert_eq!(recalculated_hash, registration_hash);
}

#[test]
fn test_canonize_json() {
    let json = object(vec![
        ("foo", Value::from("bar")),
        ("baz", Value::from(123)),
        ("qux", Value::Null),
    ]);

    let canonicalized = canonize_json(&json).unwrap();
    assert_eq!(canonicalized, "{\"baz\":123,\"foo\":\"bar\",\"qux\":null}");
}

#[test]
fn canonical_text_ignores_key_order() {
    let ba = object(vec![("b", Value::from(1)), ("a", Value::from(2))]);
    let ab = object(vec![("a", Value::from(2)), ("b", Value::from(1))]);
    assert_eq!(canonize_json(&ba).unwrap(), canonize_json(&ab).unwrap());
    assert_eq!(canonize_json(&ab).unwrap(), "{\"a\":2,\"b\":1}");
}

#[test]
fn canonical_text_of_nested_value_is_stable() {
    let inner = object(vec![("z", Value::from(true)), ("m", Value::Null)]);
    let outer = object(vec![("list", Value::Array(vec![Value::from(3), inner])), ("k", Value::from("v"))]);
    let once = canonize_json(&outer).unwrap();
    assert_eq!(once, "{\"k\":\"v\",\"list\":[3,{\"m\":null,\"z\":true}]}");
    let reparsed: Value = serde_json::from_str(&once).unwrap();
    assert_eq!(canonize_json(&reparsed).unwrap(), once);
}

#[test]
fn canonical_text_refuses_unsafe_integer() {
    let big = object(vec![("n", Value::from(u64::MAX))]);
    assert_eq!(canonize_json(&big), Err(EncryptError::NotCanonicalizable));
    assert!(encrypt_envelope(&big, &key_of(1)).is_err());
}

#[test]
fn encrypted_payload_decrypts_to_itself() {
    let data = dummy_receipt();
    let key = key_of(7);
    let envelope = encrypt_envelope(&data, &key).unwrap();
    let key_text = BASE64_STANDARD.encode(&key);
    assert_eq!(decrypt_envelope(&envelope, &key_text), Ok(data));
}

#[test]
fn decryption_under_another_key_fails() {
    let data = dummy_receipt();
    let envelope = encrypt_envelope(&data, &key_of(7)).unwrap();
    let other = BASE64_STANDARD.encode(key_of(8));
    assert_eq!(
        decrypt_envelope(&envelope, &other),
        Err(MisuseCode::ProtocolDecryptionFailed)
    );
}

#[test]
fn flipped_bits_are_detected() {
    let data = dummy_receipt();
    let key = key_of(3);
    let key_text = BASE64_STANDARD.encode(&key);
    let envelope = encrypt_envelope(&data, &key).unwrap();
    let ciphertext = BASE64_STANDARD.decode(&envelope.encrypted).unwrap();
    let nonce = BASE64_STANDARD.decode(&envelope.nonce).unwrap();
    for i in 0..ciphertext.len() * 8 {
        let mut c = ciphertext.clone();
        c[i / 8] ^= 1 << (i % 8);
        let tampered = Envelope {
            encrypted: BASE64_STANDARD.encode(&c),
            nonce: envelope.nonce.clone(),
        };
        assert_eq!(
            decrypt_envelope(&tampered, &key_text),
            Err(MisuseCode::ProtocolDecryptionFailed)
        );
    }
    for i in 0..nonce.len() * 8 {
        let mut n = nonce.clone();
        n[i / 8] ^= 1 << (i % 8);
        let tampered = Envelope {
            encrypted: envelope.encrypted.clone(),
            nonce: BASE64_STANDARD.encode(&n),
        };
        assert_eq!(
            decrypt_envelope(&tampered, &key_text),
            Err(MisuseCode::ProtocolDecryptionFailed)
        );
    }
}

#[test]
fn flipped_bits_in_the_text_never_panic() {
    let key = key_of(4);
    let key_text = BASE64_STANDARD.encode(&key);
    let envelope = encrypt_envelope(&dummy_receipt(), &key).unwrap();
    for field in 0..2 {
        let text = if field == 0 { &envelope.encrypted } else { &envelope.nonce };
        let bytes = text.as_bytes();
        for i in 0..bytes.len() * 7 {
            let mut b = bytes.to_vec();
            b[i / 7] ^= 1 << (i % 7);
            let changed = String::from_utf8(b).unwrap();
            let tampered = if field == 0 {
                Envelope { encrypted: changed, nonce: envelope.nonce.clone() }
            } else {
                Envelope { encrypted: envelope.encrypted.clone(), nonce: changed }
            };
            assert_eq!(
                decrypt_envelope(&tampered, &key_text),
                Err(MisuseCode::ProtocolDecryptionFailed)
            );
        }
    }
}

#[test]
fn same_payload_gets_fresh_nonces() {
    let data = dummy_receipt();
    let key = key_of(9);
    let first = encrypt_envelope(&data, &key).unwrap();
    let second = encrypt_envelope(&data, &key).unwrap();
    assert_ne!(first.nonce, second.nonce);
    assert_ne!(first.encrypted, second.encrypted);
    assert_eq!(BASE64_STANDARD.decode(&first.nonce).unwrap().len(), 12);
}

#[test]
fn sealed_plaintext_that_is_not_json_is_a_deserialization_misuse() {
    let key = key_of(5);
    let envelope = seal_envelope(b"not json at all", &key, &[0u8; 12]).unwrap();
    assert_eq!(envelope.nonce, "AAAAAAAAAAAAAAAA");
    assert_eq!(open_envelope(&envelope, &key), Ok(b"not json at all".to_vec()));
    assert_eq!(
        decrypt_envelope(&envelope, &BASE64_STANDARD.encode(&key)),
        Err(MisuseCode::ProtocolDeserializationFailed)
    );
}

#[test]
fn sealed_ciphertext_is_not_the_plaintext() {
    let key = key_of(6);
    let envelope = seal_envelope(b"{}", &key, &[1u8; 12]).unwrap();
    let ciphertext = BASE64_STANDARD.decode(&envelope.encrypted).unwrap();
    assert_eq!(ciphertext.len(), 2 + 16);
    assert_ne!(&ciphertext[..2], b"{}");
    assert_eq!(
        decrypt_envelope(&envelope, &BASE64_STANDARD.encode(&key)),
        Ok(Value::Object(serde_json::Map::new()))
    );
}

#[test]
fn malformed_envelope_fields_are_decryption_failures() {
    let key = key_of(2);
    let good = seal_envelope(b"{}", &key, &[2u8; 12]).unwrap();
    let bad_text = Envelope { encrypted: "%%%".to_string(), nonce: good.nonce.clone() };
    assert_eq!(open_envelope(&bad_text, &key), Err(MisuseCode::ProtocolDecryptionFailed));
    let short_nonce = Envelope {
        encrypted: good.encrypted.clone(),
        nonce: BASE64_STANDARD.encode([2u8; 8]),
    };
    assert_eq!(open_envelope(&short_nonce, &key), Err(MisuseCode::ProtocolDecryptionFailed));
    let bad_nonce = Envelope { encrypted: good.encrypted.clone(), nonce: "?".to_string() };
    assert_eq!(open_envelope(&bad_nonce, &key), Err(MisuseCode::ProtocolDecryptionFailed));
}

#[test]
fn payload_nested_past_the_parser_limit_does_not_round_trip() {
    let mut deep = Value::Null;
    for _ in 0..200 {
        deep = Value::Array(vec![deep]);
    }
    let key = key_of(10);
    let envelope = encrypt_envelope(&deep, &key).unwrap();
    assert!(open_envelope(&envelope, &key).is_ok());
    assert_eq!(
        decrypt_envelope(&envelope, &BASE64_STANDARD.encode(&key)),
        Err(MisuseCode::ProtocolDeserializationFailed)
    );
}
