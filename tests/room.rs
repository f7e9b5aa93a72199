use signaling::keys::{room_joined_key, room_key};
use signaling::room::{
    check_password, check_room_joinable, gen_b64, gen_hex, new_room, new_room_credentials,
    open_value, prepare_room, room_status, seal_value, RoomError,
};

#[test]
fn room_credentials_have_expected_lengths() {
    let c = new_room_credentials();
    assert_eq!(c.room_id.len(), 32);
    assert_eq!(c.password.len(), 32);
    assert_eq!(c.initiator_token.len(), 64);
    assert!(c.room_id.chars().all(|ch| ch.is_ascii_digit() || ('a'..='f').contains(&ch)));
    assert_eq!(gen_hex(3).len(), 6);
    assert_eq!(gen_b64(3).len(), 4);
    assert_ne!(gen_hex(16), gen_hex(16));
}

#[test]
fn new_room_waits_for_one_joiner() {
    let room = new_room("h".to_string(), "tok".to_string(), 1_000, 30);
    assert_eq!(room.state, "WAITING");
    assert_eq!(room.participants, 1);
    assert_eq!(room.expires_at_epoch_ms, 31_000);
    assert_eq!(check_room_joinable(&room, 30_999), Ok(()));
    assert_eq!(check_room_joinable(&room, 31_000), Err(RoomError::Expired));
    assert_eq!(RoomError::Expired.status_code(), 410);
}

#[test]
fn joined_or_full_room_is_not_available() {
    let mut room = new_room("h".to_string(), "tok".to_string(), 0, 30);
    room.participants = 2;
    assert_eq!(check_room_joinable(&room, 1), Err(RoomError::NotAvailable));
    room.participants = 1;
    room.state = "JOINED".to_string();
    assert_eq!(check_room_joinable(&room, 1), Err(RoomError::NotAvailable));
    assert_eq!(RoomError::NotAvailable.status_code(), 409);
}

#[test]
fn room_status_readings() {
    let joined = room_status(true, true, 5_000);
    assert_eq!(joined.status, "joined");
    assert_eq!(joined.ttl_seconds, None);
    let waiting = room_status(false, true, 12_345);
    assert_eq!(waiting.status, "waiting");
    assert_eq!(waiting.ttl_seconds, Some(12));
    assert_eq!(room_status(false, true, -1).ttl_seconds, None);
    assert_eq!(room_status(false, false, -2).status, "expired");
}

#[test]
fn password_hash_round_trip() {
    let (creds, room) = prepare_room(1_000, 30).unwrap();
    assert!(room.hashed_password.starts_with("$argon2"));
    assert!(!room.hashed_password.contains(&creds.password));
    assert_eq!(room.initiator_token, creds.initiator_token);
    assert_eq!(room.expires_at_epoch_ms, 31_000);
    assert_eq!(check_password(&creds.password, &room.hashed_password), Ok(()));
    assert_eq!(check_password("wrong", &room.hashed_password), Err(RoomError::InvalidPassword));
    assert_eq!(check_password("secret", "not a hash"), Err(RoomError::Internal));
    assert_eq!(RoomError::InvalidPassword.status_code(), 401);
}

#[test]
fn sealed_values_open_under_their_key() {
    let key = [5u8; 32];
    let sealed = seal_value(&key, "{\"a\":1}").unwrap();
    assert_ne!(sealed.ct_b64, "{\"a\":1}");
    assert_eq!(open_value(&key, &sealed).unwrap(), "{\"a\":1}");
    assert_eq!(open_value(&[6u8; 32], &sealed), Err(RoomError::Internal));
}

#[test]
fn room_keys() {
    assert_eq!(room_key("sig", "r1"), "sig:room:r1");
    assert_eq!(room_joined_key("sig", "r1"), "sig:room_joined:r1");
}
