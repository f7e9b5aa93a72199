//! Ephemeral rooms: a waiting initiator, a random room id and password,
//! and a single joiner that proves the password.
use vstd::prelude::*;
use crate::connection::{aes_gcm_open, aes_gcm_opened, aes_gcm_seal, aes_gcm_sealed, random_bytes};
use crate::encoding::{
    base64_standard_decoded, base64_standard_of, from_base64, hex_lower, lemma_hex_lower_len, to_base64,
    to_hex,
};
use crate::store::expiry_after;
use crate::store::expiry_from;
use crate::textops::text_eq;
use vstd::string::StringSliceAdditionalSpecFns;

verus! {

/// A room as stored, under the room's key.
#[derive(Debug, Clone)]
pub struct RoomStored {
    /// Argon2 hash of the room's password, in PHC string form.
    pub hashed_password: String,
    pub initiator_token: String,
    pub created_at_epoch_ms: u128,
    pub expires_at_epoch_ms: u128,
    pub state: String,
    pub participants: u8,
}

#[derive(Debug, Clone, PartialEq, Eq)]
pub struct RoomCreateResponse {
    /// 32 hex characters.
    pub room_id: String,
    /// 32 base64 characters.
    pub password: String,
    /// 64 hex characters.
    pub initiator_token: String,
    pub ttl_seconds: Option<u64>,
    pub expires_at_epoch_ms: Option<u128>,
}

#[derive(Debug, Clone, PartialEq, Eq)]
pub struct RoomJoinResponse {
    pub initiator_token: String,
    pub receiver_token: String,
}

#[derive(Debug, Clone, PartialEq, Eq)]
pub struct RoomStatusResponse {
    pub status: String,
    pub ttl_seconds: Option<u64>,
}

/// What can go wrong with a room.
#[derive(Debug, Clone, Copy, PartialEq, Eq, Structural)]
pub enum RoomError {
    /// The store failed, or a stored value could not be read.
    Internal,
    /// A room with the new id already exists.
    Conflict,
    NotFound,
    Expired,
    /// The room is no longer waiting for a joiner.
    NotAvailable,
    InvalidPassword,
}

pub open spec fn room_status_of(e: RoomError) -> u16 {
    match e {
        RoomError::Internal => 500,
        RoomError::Conflict => 409,
        RoomError::NotFound => 404,
        RoomError::Expired => 410,
        RoomError::NotAvailable => 409,
        RoomError::InvalidPassword => 401,
    }
}

pub open spec fn room_message_of(e: RoomError) -> Seq<char> {
    match e {
        RoomError::Internal => "Internal error"@,
        RoomError::Conflict => "Room allocation conflict, please retry"@,
        RoomError::NotFound => "Room not found"@,
        RoomError::Expired => "Room expired"@,
        RoomError::NotAvailable => "Room not available"@,
        RoomError::InvalidPassword => "Invalid password"@,
    }
}

impl RoomError {
    pub fn status_code(&self) -> (r: u16)
        ensures
            r == room_status_of(*self),
    {
        match self {
            RoomError::Internal => 500,
            RoomError::Conflict => 409,
            RoomError::NotFound => 404,
            RoomError::Expired => 410,
            RoomError::NotAvailable => 409,
            RoomError::InvalidPassword => 401,
        }
    }

    /// The text that the transport sends back with the status.
    pub fn message(&self) -> (r: String)
        ensures
            r@ == room_message_of(*self),
    {
        match self {
            RoomError::Internal => String::from_str("Internal error"),
            RoomError::Conflict => String::from_str("Room allocation conflict, please retry"),
            RoomError::NotFound => String::from_str("Room not found"),
            RoomError::Expired => String::from_str("Room expired"),
            RoomError::NotAvailable => String::from_str("Room not available"),
            RoomError::InvalidPassword => String::from_str("Invalid password"),
        }
    }
}

/// `len_bytes` random bytes in lower-case hex.
pub fn gen_hex(len_bytes: usize) -> (r: String)
    ensures
        exists|b: Seq<u8>| b.len() == len_bytes && r@ == hex_lower(b),
        r@.len() == 2 * len_bytes,
{
    let bytes = random_bytes(len_bytes);
    proof {
        lemma_hex_lower_len(bytes@);
    }
    to_hex(bytes.as_slice())
}

/// `len_bytes` random bytes in standard base64.
pub fn gen_b64(len_bytes: usize) -> (r: String)
    ensures
        exists|b: Seq<u8>| b.len() == len_bytes && r@ == base64_standard_of(b),
{
    let bytes = random_bytes(len_bytes);
    to_base64(bytes.as_slice())
}

/// The fresh secrets of a room.
pub struct RoomCredentials {
    /// 16 random bytes in hex.
    pub room_id: String,
    /// 24 random bytes in base64.
    pub password: String,
    /// 32 random bytes in hex.
    pub initiator_token: String,
}

pub fn new_room_credentials() -> (r: RoomCredentials)
    ensures
        exists|b: Seq<u8>| b.len() == 16 && r.room_id@ == hex_lower(b),
        exists|b: Seq<u8>| b.len() == 32 && r.initiator_token@ == hex_lower(b),
        r.room_id@.len() == 32,
        r.initiator_token@.len() == 64,
        exists|b: Seq<u8>| b.len() == 24 && r.password@ == base64_standard_of(b),
{
    RoomCredentials { room_id: gen_hex(16), password: gen_b64(24), initiator_token: gen_hex(32) }
}

/// The state of a room that waits for its joiner.
pub open spec fn waiting_state() -> Seq<char> {
    "WAITING"@
}

/// A new room, waiting with its initiator alone, that expires `ttl_secs`
/// after `now_ms`.
pub fn new_room(hashed_password: String, initiator_token: String, now_ms: u128, ttl_secs: u64) -> (r: RoomStored)
    ensures
        r.hashed_password == hashed_password,
        r.initiator_token == initiator_token,
        r.created_at_epoch_ms == now_ms,
        r.expires_at_epoch_ms == expiry_after(now_ms, ttl_secs),
        r.state@ == waiting_state(),
        r.participants == 1,
{
    RoomStored {
        hashed_password,
        initiator_token,
        created_at_epoch_ms: now_ms,
        expires_at_epoch_ms: expiry_from(now_ms, ttl_secs),
        state: String::from_str("WAITING"),
        participants: 1,
    }
}

/// Fresh credentials and the room that stores them: the password only as
/// its hash (never the password itself), expiring `ttl_secs` after `now_ms`.
pub fn prepare_room(now_ms: u128, ttl_secs: u64) -> (r: Result<(RoomCredentials, RoomStored), RoomError>)
    ensures
        match r {
            Ok((creds, room)) => {
                &&& exists|b: Seq<u8>| b.len() == 16 && creds.room_id@ == hex_lower(b)
                &&& exists|b: Seq<u8>| b.len() == 32 && creds.initiator_token@ == hex_lower(b)
                &&& creds.room_id@.len() == 32
                &&& creds.initiator_token@.len() == 64
                &&& room.hashed_password@ != creds.password@
                &&& exists|b: Seq<u8>| b.len() == 24 && creds.password@ == base64_standard_of(b)
                &&& room.initiator_token@ == creds.initiator_token@
                &&& room.created_at_epoch_ms == now_ms
                &&& room.expires_at_epoch_ms == expiry_after(now_ms, ttl_secs)
                &&& room.state@ == waiting_state()
                &&& room.participants == 1
            },
            Err(e) => e == RoomError::Internal,
        },
{
    let creds = new_room_credentials();
    let hashed = match hash_password(creds.password.as_str().as_bytes()) {
        Some(h) => h,
        None => {
            return Err(RoomError::Internal);
        },
    };
    if hashed == creds.password {
        return Err(RoomError::Internal);
    }
    let room = new_room(hashed, creds.initiator_token.clone(), now_ms, ttl_secs);
    Ok((creds, room))
}

/// Whether a room can be joined at `now_ms`: not expired, still waiting,
/// and with fewer than two participants.
pub open spec fn room_joinable(room: RoomStored, now_ms: u128) -> Result<(), RoomError> {
    if now_ms >= room.expires_at_epoch_ms {
        Err(RoomError::Expired)
    } else if room.state@ != waiting_state() || room.participants >= 2 {
        Err(RoomError::NotAvailable)
    } else {
        Ok(())
    }
}

pub fn check_room_joinable(room: &RoomStored, now_ms: u128) -> (r: Result<(), RoomError>)
    ensures
        r == room_joinable(*room, now_ms),
{
    if now_ms >= room.expires_at_epoch_ms {
        return Err(RoomError::Expired);
    }
    if !text_eq(room.state.as_str(), "WAITING") || room.participants >= 2 {
        return Err(RoomError::NotAvailable);
    }
    Ok(())
}

/// What a room's status reads: "joined" once the joined flag is set, else
/// "waiting" (with the whole seconds left, where the store knows them)
/// while the room exists, else "expired".
pub fn room_status(joined: bool, room_exists: bool, ttl_ms: i64) -> (r: RoomStatusResponse)
    ensures
        joined ==> r.status@ == "joined"@ && r.ttl_seconds is None,
        !joined && room_exists ==> r.status@ == "waiting"@ && r.ttl_seconds == if ttl_ms >= 0 {
            Some((ttl_ms / 1000) as u64)
        } else {
            None::<u64>
        },
        !joined && !room_exists ==> r.status@ == "expired"@ && r.ttl_seconds is None,
{
    if joined {
        return RoomStatusResponse { status: String::from_str("joined"), ttl_seconds: None };
    }
    if room_exists {
        let ttl_seconds = if ttl_ms >= 0 {
            Some((ttl_ms as u64) / 1000)
        } else {
            None
        };
        return RoomStatusResponse { status: String::from_str("waiting"), ttl_seconds };
    }
    RoomStatusResponse { status: String::from_str("expired"), ttl_seconds: None }
}

/// Whether a password matches an Argon2 hash in PHC string form; nothing
/// where the hash cannot be read.
pub uninterp spec fn password_check_of(password: Seq<u8>, hash: Seq<char>) -> Option<bool>;

/// Relies on argon2's default Argon2 instance, PasswordHasher::hash_password
/// and password_hash's SaltString::generate with the operating system's
/// random source: a PHC string of a fresh salted hash, or nothing where
/// hashing fails.
#[verifier::external_body]
fn hash_password(password: &[u8]) -> (r: Option<String>) {
    let salt = argon2::password_hash::SaltString::generate(&mut argon2::password_hash::rand_core::OsRng);
    let hash = argon2::PasswordHasher::hash_password(&argon2::Argon2::default(), password, &salt).ok()?;
    Some(hash.to_string())
}

/// Relies on password_hash's PasswordHash::new (reads a PHC string) and
/// argon2's PasswordVerifier::verify_password with the default instance.
#[verifier::external_body]
fn password_matches(password: &[u8], hash: &str) -> (r: Option<bool>)
    ensures
        r == password_check_of(password@, hash@),
{
    let parsed = argon2::password_hash::PasswordHash::new(hash).ok()?;
    Some(argon2::PasswordVerifier::verify_password(&argon2::Argon2::default(), password, &parsed).is_ok())
}

/// Checks a joiner's password against the room's hash.
pub fn check_password(password: &str, hashed_password: &str) -> (r: Result<(), RoomError>)
    ensures
        r == match password_check_of(password.spec_bytes(), hashed_password@) {
            None => Err(RoomError::Internal),
            Some(true) => Ok(()),
            Some(false) => Err(RoomError::InvalidPassword),
        },
{
    match password_matches(password.as_bytes(), hashed_password) {
        None => Err(RoomError::Internal),
        Some(true) => Ok(()),
        Some(false) => Err(RoomError::InvalidPassword),
    }
}

/// A stored value sealed under the store key: nonce and ciphertext, each
/// in base64.
#[derive(Debug, Clone, PartialEq, Eq)]
pub struct SealedValue {
    pub nonce_b64: String,
    pub ct_b64: String,
}

/// Seals a stored value under the store key with a fresh random nonce.
pub fn seal_value(key: &[u8; 32], plain: &str) -> (r: Result<SealedValue, RoomError>)
    ensures
        exists|nonce: Seq<u8>|
            nonce.len() == 12 && match r {
                Ok(v) => {
                    &&& v.nonce_b64@ == base64_standard_of(nonce)
                    &&& aes_gcm_sealed(key@, nonce, plain.spec_bytes()) is Some
                    &&& v.ct_b64@ == base64_standard_of(aes_gcm_sealed(key@, nonce, plain.spec_bytes())->Some_0)
                },
                Err(e) => e == RoomError::Internal && aes_gcm_sealed(key@, nonce, plain.spec_bytes()) is None,
            },
{
    let nonce = random_bytes(12);
    match aes_gcm_seal(key, nonce.as_slice(), plain.as_bytes()) {
        Some(ct) => Ok(SealedValue { nonce_b64: to_base64(nonce.as_slice()), ct_b64: to_base64(ct.as_slice()) }),
        None => Err(RoomError::Internal),
    }
}

/// The text that some bytes spell in UTF-8, if they are valid UTF-8.
pub uninterp spec fn utf8_text_of(b: Seq<u8>) -> Option<Seq<char>>;

/// Relies on String::from_utf8.
#[verifier::external_body]
fn utf8_text(b: Vec<u8>) -> (r: Option<String>)
    ensures
        match r {
            Some(s) => utf8_text_of(b@) == Some(s@),
            None => utf8_text_of(b@) is None,
        },
{
    String::from_utf8(b).ok()
}

/// What opening a sealed value gives: both parts decode, the nonce is 12
/// bytes, the ciphertext authenticates, and the plaintext is UTF-8.
pub open spec fn opened_value(key: Seq<u8>, nonce_b64: Seq<char>, ct_b64: Seq<char>) -> Option<Seq<char>> {
    match (base64_standard_decoded(nonce_b64), base64_standard_decoded(ct_b64)) {
        (Some(n), Some(c)) => if n.len() == 12 {
            match aes_gcm_opened(key, n, c) {
                Some(p) => utf8_text_of(p),
                None => None,
            }
        } else {
            None
        },
        _ => None,
    }
}

/// Opens a sealed stored value.
pub fn open_value(key: &[u8; 32], sealed: &SealedValue) -> (r: Result<String, RoomError>)
    ensures
        match r {
            Ok(s) => opened_value(key@, sealed.nonce_b64@, sealed.ct_b64@) == Some(s@),
            Err(e) => e == RoomError::Internal && opened_value(key@, sealed.nonce_b64@, sealed.ct_b64@) is None,
        },
{
    let nonce = match from_base64(sealed.nonce_b64.as_str()) {
        Some(n) => n,
        None => {
            return Err(RoomError::Internal);
        },
    };
    let ct = match from_base64(sealed.ct_b64.as_str()) {
        Some(c) => c,
        None => {
            return Err(RoomError::Internal);
        },
    };
    if nonce.len() != 12 {
        return Err(RoomError::Internal);
    }
    let plain = match aes_gcm_open(key, nonce.as_slice(), ct.as_slice()) {
        Some(p) => p,
        None => {
            return Err(RoomError::Internal);
        },
    };
    match utf8_text(plain) {
        Some(s) => Ok(s),
        None => Err(RoomError::Internal),
    }
}

} // verus!
