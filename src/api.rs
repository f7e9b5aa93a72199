//! The peer-side entry points: setting up a connection link, deriving keys
//! from a shared secret, and sealing and opening signaling payloads.
use vstd::prelude::*;
use crate::connection::{
    decrypt_payload, derived_keys, encrypt_payload, gen_mailbox_id, gen_rendezvous_id, hmac_sha256_of,
    label_mac, label_sas, label_sig, opened_payload, random_key, sealed_payload, CryptoError,
};
use crate::encoding::{
    base64_url_of, from_hex, hex_decodes_to, hex_lower, is_hex_text, lemma_hex_lower_len, to_hex,
};

verus! {

/// Everything a peer holds about a connection link, in text form.
#[derive(Debug, Clone)]
pub struct ConnectionInitLocalResult {
    pub rendezvous_id: String,
    pub mailbox_id: String,
    /// The shared secret, in hex.
    pub secret: String,
    /// The signaling key, in hex.
    pub k_sig: String,
    /// The MAC key, in hex.
    pub k_mac: String,
    /// The short authentication string, in hex.
    pub sas: String,
}

/// The hex forms of a secret and of the three keys derived from it.
pub open spec fn keys_text_of(r: ConnectionInitLocalResult, secret: Seq<u8>) -> bool {
    &&& r.secret@ == hex_lower(secret)
    &&& r.k_sig@ == hex_lower(hmac_sha256_of(secret, label_sig()))
    &&& r.k_mac@ == hex_lower(hmac_sha256_of(secret, label_mac()))
    &&& r.sas@ == hex_lower(hmac_sha256_of(secret, label_sas()))
    &&& r.secret@.len() == 64
    &&& r.k_sig@.len() == 64
    &&& r.k_mac@.len() == 64
    &&& r.sas@.len() == 64
}

fn keys_text(rendezvous_id: String, mailbox_id: String, secret: &[u8; 32]) -> (r: ConnectionInitLocalResult)
    ensures
        keys_text_of(r, secret@),
        r.rendezvous_id == rendezvous_id,
        r.mailbox_id == mailbox_id,
{
    let keys = derived_keys(secret);
    proof {
        lemma_hex_lower_len(secret@);
        lemma_hex_lower_len(keys.k_sig@);
        lemma_hex_lower_len(keys.k_mac@);
        lemma_hex_lower_len(keys.sas@);
    }
    ConnectionInitLocalResult {
        rendezvous_id,
        mailbox_id,
        secret: to_hex(secret.as_slice()),
        k_sig: to_hex(keys.k_sig.as_slice()),
        k_mac: to_hex(keys.k_mac.as_slice()),
        sas: to_hex(keys.sas.as_slice()),
    }
}

/// Sets up a connection link on the initiating peer: a fresh rendezvous
/// token, a fresh mailbox id, a fresh secret (never sent to the server),
/// and the keys derived from it.
pub fn connection_init_local() -> (r: ConnectionInitLocalResult)
    ensures
        exists|b: Seq<u8>| b.len() == 32 && r.rendezvous_id@ == base64_url_of(b),
        r.rendezvous_id@.len() == 43,
        exists|b: Seq<u8>| b.len() == 16 && r.mailbox_id@ == hex_lower(b),
        r.mailbox_id@.len() == 32,
        exists|secret: Seq<u8>| secret.len() == 32 && keys_text_of(r, secret),
{
    let rendezvous_id = gen_rendezvous_id();
    let mailbox_id = gen_mailbox_id();
    let secret = random_key();
    keys_text(rendezvous_id, mailbox_id, &secret)
}

/// Reads a 32-byte key written in hex.
pub fn key_from_hex(text: &str) -> (r: Result<[u8; 32], CryptoError>)
    ensures
        match r {
            Ok(k) => hex_decodes_to(text@, k@),
            Err(CryptoError::InvalidHex) => !is_hex_text(text@),
            Err(CryptoError::InvalidKeyLength) => is_hex_text(text@) && text@.len() != 64,
            Err(_) => false,
        },
{
    let bytes = match from_hex(text) {
        Some(b) => b,
        None => {
            return Err(CryptoError::InvalidHex);
        },
    };
    if bytes.len() != 32 {
        return Err(CryptoError::InvalidKeyLength);
    }
    let mut key = [0u8; 32];
    let mut i: usize = 0;
    while i < 32
        invariant
            i <= 32,
            bytes@.len() == 32,
            forall|j: int| 0 <= j < i ==> key@[j] == bytes@[j],
        decreases 32 - i,
    {
        key[i] = bytes[i];
        i = i + 1;
    }
    assert(key@ =~= bytes@);
    Ok(key)
}

/// Derives the keys of a connection link on the joining peer, from the
/// secret in hex. The token and mailbox id are left empty.
pub fn connection_derive_keys(secret_hex: String) -> (r: Result<ConnectionInitLocalResult, CryptoError>)
    ensures
        match r {
            Ok(res) => {
                &&& res.rendezvous_id@.len() == 0
                &&& res.mailbox_id@.len() == 0
                &&& exists|secret: Seq<u8>|
                    hex_decodes_to(secret_hex@, secret) && #[trigger] keys_text_of(res, secret)
            },
            Err(CryptoError::InvalidHex) => !is_hex_text(secret_hex@),
            Err(CryptoError::InvalidKeyLength) => is_hex_text(secret_hex@) && secret_hex@.len() != 64,
            Err(_) => false,
        },
{
    let secret = match key_from_hex(secret_hex.as_str()) {
        Ok(k) => k,
        Err(e) => {
            return Err(e);
        },
    };
    let no_token = String::new();
    let no_mailbox = String::new();
    let res = keys_text(no_token, no_mailbox, &secret);
    assert(keys_text_of(res, secret@));
    assert(exists|b: Seq<u8>| hex_decodes_to(secret_hex@, b) && #[trigger] keys_text_of(res, b));
    Ok(res)
}

/// The link that the initiating peer hands over out of band: the join path
/// with the token as query, and the secret as fragment (never sent to the
/// server).
pub open spec fn connection_link(base_url: Seq<char>, rendezvous_id: Seq<char>, secret: Seq<char>) -> Seq<char> {
    base_url + "/connection/join?token="@ + rendezvous_id + "#"@ + secret
}

pub fn generate_connection_link(base_url: String, rendezvous_id: String, secret: String) -> (r: String)
    ensures
        r@ == connection_link(base_url@, rendezvous_id@, secret@),
{
    let r = base_url.concat("/connection/join?token=").concat(rendezvous_id.as_str()).concat("#").concat(
        secret.as_str(),
    );
    r
}

/// Seals a signaling payload under a key given in hex.
pub fn connection_encrypt(key_hex: String, plaintext: Vec<u8>) -> (r: Result<String, CryptoError>)
    ensures
        match r {
            Ok(s) => exists|key: Seq<u8>, nonce: Seq<u8>|
                hex_decodes_to(key_hex@, key) && nonce.len() == 12 && sealed_payload(key, nonce, plaintext@)
                    == Ok::<Seq<char>, CryptoError>(s@),
            Err(CryptoError::InvalidHex) => !is_hex_text(key_hex@),
            Err(CryptoError::InvalidKeyLength) => is_hex_text(key_hex@) && key_hex@.len() != 64,
            Err(CryptoError::EncryptionFailed) => exists|key: Seq<u8>, nonce: Seq<u8>|
                hex_decodes_to(key_hex@, key) && nonce.len() == 12 && sealed_payload(key, nonce, plaintext@)
                    == Err::<Seq<char>, CryptoError>(CryptoError::EncryptionFailed),
            Err(_) => false,
        },
{
    let key = match key_from_hex(key_hex.as_str()) {
        Ok(k) => k,
        Err(e) => {
            return Err(e);
        },
    };
    let r = encrypt_payload(&key, plaintext.as_slice());
    proof {
        if r is Err {
            let e = r->Err_0;
            let nonce = choose|nonce: Seq<u8>| nonce.len() == 12 && sealed_payload(key@, nonce, plaintext@) == Err::<Seq<char>, CryptoError>(e);
            assert(e == CryptoError::EncryptionFailed);
        }
    }
    r
}

/// Opens a signaling payload under a key given in hex.
pub fn connection_decrypt(key_hex: String, ciphertext_b64: String) -> (r: Result<Vec<u8>, CryptoError>)
    ensures
        match r {
            Ok(p) => exists|key: Seq<u8>|
                hex_decodes_to(key_hex@, key) && opened_payload(key, ciphertext_b64@) == Ok::<Seq<u8>, CryptoError>(p@),
            Err(CryptoError::InvalidHex) => !is_hex_text(key_hex@),
            Err(CryptoError::InvalidKeyLength) => is_hex_text(key_hex@) && key_hex@.len() != 64,
            Err(e) => exists|key: Seq<u8>|
                hex_decodes_to(key_hex@, key) && opened_payload(key, ciphertext_b64@) == Err::<Seq<u8>, CryptoError>(e),
        },
{
    let key = match key_from_hex(key_hex.as_str()) {
        Ok(k) => k,
        Err(e) => {
            return Err(e);
        },
    };
    decrypt_payload(&key, ciphertext_b64.as_str())
}

} // verus!
