//! Peer-side key material: key derivation from the shared secret, the
//! generation of rendezvous tokens and mailbox ids, and the sealing of
//! signaling payloads.
use vstd::prelude::*;
use crate::encoding::{
    base64_standard_decoded, base64_standard_of, base64_url_of, from_base64, is_base64_url_char, hex_lower, lemma_hex_lower_len,
    to_base64, to_base64_url, to_hex,
};

verus! {

/// Keys derived from a shared secret.
#[derive(Debug, Clone)]
pub struct DerivedKeys {
    /// Key that seals signaling payloads.
    pub k_sig: [u8; 32],
    /// Key that authenticates messages.
    pub k_mac: [u8; 32],
    /// Short authentication string, compared out of band.
    pub sas: [u8; 32],
}

/// What can go wrong when handling key material and sealed payloads.
#[derive(Debug, Clone, Copy, PartialEq, Eq, Structural)]
pub enum CryptoError {
    InvalidHex,
    InvalidKeyLength,
    InvalidBase64,
    PayloadTooShort,
    EncryptionFailed,
    DecryptionFailed,
}

/// The HMAC-SHA256 tag of a message under a key.
pub uninterp spec fn hmac_sha256_of(key: Seq<u8>, msg: Seq<u8>) -> Seq<u8>;

/// What AES-256-GCM sealing gives for a key, a 12-byte nonce and a
/// plaintext: ciphertext followed by the tag, or nothing on failure.
pub uninterp spec fn aes_gcm_sealed(key: Seq<u8>, nonce: Seq<u8>, plaintext: Seq<u8>) -> Option<Seq<u8>>;

/// What AES-256-GCM opening gives for a key, a 12-byte nonce and a
/// ciphertext with its tag: the plaintext, or nothing if it does not
/// authenticate.
pub uninterp spec fn aes_gcm_opened(key: Seq<u8>, nonce: Seq<u8>, ciphertext: Seq<u8>) -> Option<Seq<u8>>;

/// Relies on rand::rng (the thread-local generator, seeded from the
/// operating system) and RngCore::fill_bytes: `n` bytes, of unknown value.
#[verifier::external_body]
pub(crate) fn random_bytes(n: usize) -> (r: Vec<u8>)
    ensures
        r@.len() == n,
{
    let mut buf = vec![0u8; n];
    rand::RngCore::fill_bytes(&mut rand::rng(), &mut buf);
    buf
}

/// Relies on rand::rng and RngCore::fill_bytes: 32 bytes of unknown value.
#[verifier::external_body]
pub(crate) fn random_key() -> (r: [u8; 32]) {
    let mut key = [0u8; 32];
    rand::RngCore::fill_bytes(&mut rand::rng(), &mut key);
    key
}

/// Relies on hmac's Hmac<Sha256>: new_from_slice takes a key of any length,
/// and finalize gives the 32-byte tag.
#[verifier::external_body]
fn hmac_sha256(key: &[u8], msg: &[u8]) -> (r: [u8; 32])
    ensures
        r@ == hmac_sha256_of(key@, msg@),
{
    let mut mac = <hmac::Hmac<sha2::Sha256> as hmac::Mac>::new_from_slice(key).expect("any key length");
    hmac::Mac::update(&mut mac, msg);
    hmac::Mac::finalize(mac).into_bytes().into()
}

/// Relies on aes_gcm's Aes256Gcm and Aead::encrypt with a 12-byte nonce.
#[verifier::external_body]
pub(crate) fn aes_gcm_seal(key: &[u8; 32], nonce: &[u8], plaintext: &[u8]) -> (r: Option<Vec<u8>>)
    requires
        nonce@.len() == 12,
    ensures
        match r {
            Some(c) => aes_gcm_sealed(key@, nonce@, plaintext@) == Some(c@),
            None => aes_gcm_sealed(key@, nonce@, plaintext@) is None,
        },
{
    let cipher = <aes_gcm::Aes256Gcm as aes_gcm::aead::KeyInit>::new(key.into());
    aes_gcm::aead::Aead::encrypt(&cipher, aes_gcm::Nonce::from_slice(nonce), plaintext).ok()
}

/// Relies on aes_gcm's Aes256Gcm and Aead::decrypt with a 12-byte nonce.
#[verifier::external_body]
pub(crate) fn aes_gcm_open(key: &[u8; 32], nonce: &[u8], ciphertext: &[u8]) -> (r: Option<Vec<u8>>)
    requires
        nonce@.len() == 12,
    ensures
        match r {
            Some(p) => aes_gcm_opened(key@, nonce@, ciphertext@) == Some(p@),
            None => aes_gcm_opened(key@, nonce@, ciphertext@) is None,
        },
{
    let cipher = <aes_gcm::Aes256Gcm as aes_gcm::aead::KeyInit>::new(key.into());
    aes_gcm::aead::Aead::decrypt(&cipher, aes_gcm::Nonce::from_slice(nonce), ciphertext).ok()
}

/// The ASCII labels under which the three keys are derived.
pub open spec fn label_sig() -> Seq<u8> {
    seq![115u8, 105u8, 103u8]
}

pub open spec fn label_mac() -> Seq<u8> {
    seq![109u8, 97u8, 99u8]
}

pub open spec fn label_sas() -> Seq<u8> {
    seq![115u8, 97u8, 115u8]
}

/// Derives the three keys from a shared secret: each is the HMAC-SHA256 of
/// its label ("sig", "mac", "sas") under the secret.
pub fn derive_keys(secret: &[u8; 32]) -> (r: Result<DerivedKeys, CryptoError>)
    ensures
        match r {
            Ok(k) => keys_derived_from(k, secret@),
            Err(_) => false,
        },
{
    Ok(derived_keys(secret))
}

pub open spec fn keys_derived_from(k: DerivedKeys, secret: Seq<u8>) -> bool {
    &&& k.k_sig@ == hmac_sha256_of(secret, label_sig())
    &&& k.k_mac@ == hmac_sha256_of(secret, label_mac())
    &&& k.sas@ == hmac_sha256_of(secret, label_sas())
}

pub(crate) fn derived_keys(secret: &[u8; 32]) -> (k: DerivedKeys)
    ensures
        keys_derived_from(k, secret@),
{
    let sig: [u8; 3] = [115u8, 105u8, 103u8];
    let mac: [u8; 3] = [109u8, 97u8, 99u8];
    let sas: [u8; 3] = [115u8, 97u8, 115u8];
    assert(sig@ == label_sig());
    assert(mac@ == label_mac());
    assert(sas@ == label_sas());
    let key = secret.as_slice();
    let k_sig = hmac_sha256(key, sig.as_slice());
    let k_mac = hmac_sha256(key, mac.as_slice());
    let sas = hmac_sha256(key, sas.as_slice());
    DerivedKeys { k_sig, k_mac, sas }
}

/// A fresh rendezvous token: 32 random bytes in URL-safe base64 without
/// padding.
pub fn gen_rendezvous_id() -> (r: String)
    ensures
        exists|b: Seq<u8>| b.len() == 32 && r@ == base64_url_of(b),
        r@.len() == 43,
        forall|i: int| 0 <= i < r@.len() ==> is_base64_url_char(#[trigger] r@[i]),
{
    let bytes = random_bytes(32);
    to_base64_url(bytes.as_slice())
}

/// A fresh mailbox id: 16 random bytes in lower-case hex.
pub fn gen_mailbox_id() -> (r: String)
    ensures
        exists|b: Seq<u8>| b.len() == 16 && r@ == hex_lower(b),
        r@.len() == 32,
{
    let bytes = random_bytes(16);
    proof {
        lemma_hex_lower_len(bytes@);
    }
    to_hex(bytes.as_slice())
}

/// The text form of a sealed payload: base64 of the nonce followed by the
/// ciphertext and its tag.
pub open spec fn sealed_payload(key: Seq<u8>, nonce: Seq<u8>, plaintext: Seq<u8>) -> Result<Seq<char>, CryptoError> {
    match aes_gcm_sealed(key, nonce, plaintext) {
        None => Err(CryptoError::EncryptionFailed),
        Some(c) => Ok(base64_standard_of(nonce + c)),
    }
}

/// Seals a payload under a key with a given 12-byte nonce.
pub fn seal_payload(key: &[u8; 32], nonce: &[u8], plaintext: &[u8]) -> (r: Result<String, CryptoError>)
    requires
        nonce@.len() == 12,
    ensures
        match r {
            Ok(s) => sealed_payload(key@, nonce@, plaintext@) == Ok::<Seq<char>, CryptoError>(s@),
            Err(e) => sealed_payload(key@, nonce@, plaintext@) == Err::<Seq<char>, CryptoError>(e),
        },
{
    let ciphertext = match aes_gcm_seal(key, nonce, plaintext) {
        Some(c) => c,
        None => {
            return Err(CryptoError::EncryptionFailed);
        },
    };
    let mut payload: Vec<u8> = Vec::new();
    let mut i: usize = 0;
    while i < nonce.len()
        invariant
            i <= nonce@.len(),
            payload@ == nonce@.subrange(0, i as int),
        decreases nonce@.len() - i,
    {
        payload.push(nonce[i]);
        i = i + 1;
        assert(payload@ =~= nonce@.subrange(0, i as int));
    }
    let mut j: usize = 0;
    while j < ciphertext.len()
        invariant
            j <= ciphertext@.len(),
            payload@ == nonce@ + ciphertext@.subrange(0, j as int),
        decreases ciphertext@.len() - j,
    {
        payload.push(ciphertext[j]);
        j = j + 1;
        assert(payload@ =~= nonce@ + ciphertext@.subrange(0, j as int));
    }
    assert(nonce@.subrange(0, nonce@.len() as int) =~= nonce@);
    assert(ciphertext@.subrange(0, ciphertext@.len() as int) =~= ciphertext@);
    Ok(to_base64(payload.as_slice()))
}

/// Seals a payload under a key with a fresh random nonce; the result is
/// base64 of nonce, ciphertext and tag.
pub fn encrypt_payload(key: &[u8; 32], plaintext: &[u8]) -> (r: Result<String, CryptoError>)
    ensures
        exists|nonce: Seq<u8>|
            nonce.len() == 12 && match r {
                Ok(s) => sealed_payload(key@, nonce, plaintext@) == Ok::<Seq<char>, CryptoError>(s@),
                Err(e) => sealed_payload(key@, nonce, plaintext@) == Err::<Seq<char>, CryptoError>(e),
            },
{
    let nonce = random_bytes(12);
    seal_payload(key, nonce.as_slice(), plaintext)
}

/// What opening a sealed payload gives: its base64 is decoded, the first
/// 12 bytes are the nonce, the rest ciphertext and tag.
pub open spec fn opened_payload(key: Seq<u8>, text: Seq<char>) -> Result<Seq<u8>, CryptoError> {
    match base64_standard_decoded(text) {
        None => Err(CryptoError::InvalidBase64),
        Some(p) => if p.len() < 12 {
            Err(CryptoError::PayloadTooShort)
        } else {
            match aes_gcm_opened(key, p.subrange(0, 12), p.subrange(12, p.len() as int)) {
                None => Err(CryptoError::DecryptionFailed),
                Some(plain) => Ok(plain),
            }
        },
    }
}

/// Opens a sealed payload.
pub fn decrypt_payload(key: &[u8; 32], ciphertext_b64: &str) -> (r: Result<Vec<u8>, CryptoError>)
    ensures
        match r {
            Ok(p) => opened_payload(key@, ciphertext_b64@) == Ok::<Seq<u8>, CryptoError>(p@),
            Err(e) => opened_payload(key@, ciphertext_b64@) == Err::<Seq<u8>, CryptoError>(e),
        },
{
    let payload = match from_base64(ciphertext_b64) {
        Some(p) => p,
        None => {
            return Err(CryptoError::InvalidBase64);
        },
    };
    if payload.len() < 12 {
        return Err(CryptoError::PayloadTooShort);
    }
    let (nonce, ciphertext) = payload.as_slice().split_at(12);
    match aes_gcm_open(key, nonce, ciphertext) {
        Some(p) => Ok(p),
        None => Err(CryptoError::DecryptionFailed),
    }
}

} // verus!
