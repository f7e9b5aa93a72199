use base64::Engine;
use signaling::api::{
    connection_decrypt, connection_derive_keys, connection_encrypt, connection_init_local,
    generate_connection_link, key_from_hex,
};
use signaling::connection::{
    decrypt_payload, derive_keys, encrypt_payload, gen_mailbox_id, gen_rendezvous_id, seal_payload,
    CryptoError,
};

fn to_hex(b: &[u8]) -> String {
    hex::encode(b)
}

fn to_base64(b: &[u8]) -> String {
    base64::engine::general_purpose::STANDARD.encode(b)
}

#[test]
fn test_connection_init_local() {
    let result = connection_init_local();
    assert!(!result.rendezvous_id.is_empty());
    assert!(!result.mailbox_id.is_empty());
    assert_eq!(result.secret.len(), 64);
    assert_eq!(result.k_sig.len(), 64); // 32 bytes = 64 hex chars
    assert_eq!(result.k_mac.len(), 64);
    assert_eq!(result.sas.len(), 64);
}

#[test]
fn test_generate_connection_link() {
    let link = generate_connection_link(
        "https://example.com".to_string(),
        "test_rendezvous_id".to_string(),
        "test_secret".to_string(),
    );
    assert!(link.contains("https://example.com/connection/join"));
    assert!(link.contains("token=test_rendezvous_id"));
    assert!(link.contains("#test_secret"));
}

#[test]
fn connection_link_is_exact() {
    let link = generate_connection_link("https://a.b".to_string(), "tok".to_string(), "sec".to_string());
    assert_eq!(link, "https://a.b/connection/join?token=tok#sec");
}

#[test]
fn test_derive_keys() {
    let secret = [42u8; 32];
    let keys = derive_keys(&secret).expect("derivation failed");

    // Keys should be deterministic
    let keys2 = derive_keys(&secret).expect("derivation failed");
    assert_eq!(keys.k_sig, keys2.k_sig);
    assert_eq!(keys.k_mac, keys2.k_mac);
    assert_eq!(keys.sas, keys2.sas);
}

#[test]
fn derived_keys_differ_by_label_and_secret() {
    let a = derive_keys(&[42u8; 32]).unwrap();
    let b = derive_keys(&[43u8; 32]).unwrap();
    assert_ne!(a.k_sig, a.k_mac);
    assert_ne!(a.k_mac, a.sas);
    assert_ne!(a.k_sig, [42u8; 32]);
    assert_ne!(a.k_sig, b.k_sig);
}

#[test]
fn derived_key_matches_hmac_sha256() {
    let keys = derive_keys(&[0u8; 32]).unwrap();
    assert_eq!(to_hex(&keys.k_sig), "24435adc6cf63371c9047faa83fa1b484a75b09751976eec10531f6a8c6e9c21");
    assert_eq!(to_hex(&keys.k_mac), "84d48ab8cce2e4f74017524767192ec58e06dd3bf95c07e516f6e540f1cb8909");
    assert_eq!(to_hex(&keys.sas), "7b9a7eab957342a2a1f85e75b745d221b931c1c1976b0c6963d7e473cfbb3d2f");
    let again = connection_derive_keys("00".repeat(32)).unwrap();
    assert_eq!(again.k_sig, to_hex(&keys.k_sig));
    assert_eq!(again.secret, "00".repeat(32));
}

#[test]
fn test_gen_rendezvous_id() {
    let id1 = gen_rendezvous_id();
    let id2 = gen_rendezvous_id();

    // Should be different (with overwhelming probability)
    assert_ne!(id1, id2);
    // Should decode without error
    assert!(base64::engine::general_purpose::URL_SAFE_NO_PAD.decode(&id1).is_ok());
    assert!(base64::engine::general_purpose::URL_SAFE_NO_PAD.decode(&id2).is_ok());
}

#[test]
fn rendezvous_id_encodes_32_bytes() {
    let id = gen_rendezvous_id();
    assert_eq!(id.len(), 43);
    let bytes = base64::engine::general_purpose::URL_SAFE_NO_PAD.decode(&id).unwrap();
    assert_eq!(bytes.len(), 32);
}

#[test]
fn test_gen_mailbox_id() {
    let id1 = gen_mailbox_id();
    let id2 = gen_mailbox_id();

    assert_ne!(id1, id2);
    assert_eq!(id1.len(), 32); // 16 bytes = 32 hex chars
}

#[test]
fn mailbox_id_is_lower_hex() {
    let id = gen_mailbox_id();
    assert!(id.chars().all(|c| c.is_ascii_digit() || ('a'..='f').contains(&c)));
}

#[test]
fn test_encryption_roundtrip() {
    let key = [1u8; 32];
    let plaintext = b"Hello world!";

    let encrypted = encrypt_payload(&key, plaintext).expect("encrypt failed");
    let decrypted = decrypt_payload(&key, &encrypted).expect("decrypt failed");

    assert_eq!(plaintext.to_vec(), decrypted);
}

#[test]
fn sealed_payload_starts_with_nonce() {
    let key = [7u8; 32];
    let nonce = [9u8; 12];
    let sealed = seal_payload(&key, &nonce, b"abc").unwrap();
    let raw = base64::engine::general_purpose::STANDARD.decode(&sealed).unwrap();
    assert_eq!(&raw[..12], &nonce);
    // ciphertext of 3 bytes plus a 16-byte tag
    assert_eq!(raw.len(), 12 + 3 + 16);
    assert_eq!(decrypt_payload(&key, &sealed).unwrap(), b"abc".to_vec());
}

#[test]
fn decrypt_errors() {
    let key = [1u8; 32];
    assert_eq!(decrypt_payload(&key, "not base64!"), Err(CryptoError::InvalidBase64));
    assert_eq!(decrypt_payload(&key, &to_base64(&[0u8; 11])), Err(CryptoError::PayloadTooShort));
    assert_eq!(decrypt_payload(&key, &to_base64(&[0u8; 40])), Err(CryptoError::DecryptionFailed));
    let other = encrypt_payload(&[2u8; 32], b"x").unwrap();
    assert_eq!(decrypt_payload(&key, &other), Err(CryptoError::DecryptionFailed));
}

#[test]
fn hex_keys() {
    assert_eq!(key_from_hex("zz"), Err(CryptoError::InvalidHex));
    assert_eq!(key_from_hex("abc"), Err(CryptoError::InvalidHex));
    assert_eq!(key_from_hex("0011"), Err(CryptoError::InvalidKeyLength));
    assert_eq!(key_from_hex(&"01".repeat(32)), Ok([1u8; 32]));
    let mut mixed = [0u8; 32];
    mixed[0] = 10;
    mixed[1] = 255;
    assert_eq!(key_from_hex(&format!("0aFf{}", "00".repeat(30))), Ok(mixed));
}

#[test]
fn connection_encrypt_decrypt_via_hex() {
    let key_hex = "01".repeat(32);
    let ct = connection_encrypt(key_hex.clone(), b"hi".to_vec()).unwrap();
    assert_eq!(connection_decrypt(key_hex, ct).unwrap(), b"hi".to_vec());
    assert!(matches!(connection_encrypt("xy".to_string(), vec![]), Err(CryptoError::InvalidHex)));
    assert!(matches!(
        connection_decrypt("0102".to_string(), String::new()),
        Err(CryptoError::InvalidKeyLength)
    ));
}

#[test]
fn derive_keys_from_hex_secret() {
    let r = connection_derive_keys("2a".repeat(32)).unwrap();
    let direct = derive_keys(&[42u8; 32]).unwrap();
    assert_eq!(r.k_sig, to_hex(&direct.k_sig));
    assert_eq!(r.k_mac, to_hex(&direct.k_mac));
    assert_eq!(r.sas, to_hex(&direct.sas));
    assert!(r.rendezvous_id.is_empty());
    assert!(r.mailbox_id.is_empty());
    assert!(matches!(connection_derive_keys("2a".to_string()), Err(CryptoError::InvalidKeyLength)));
}
