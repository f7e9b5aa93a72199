use signaling::registry::{
    HeartbeatRequest, RegisterRequest, RegistryError, SessionRegistry, SignalFetchRequest,
    SignalSubmitRequest,
};
use signaling::repository::{ClientRecord, InMemorySessionRepository, SignalEnvelope};

fn req(label: &str) -> RegisterRequest {
    RegisterRequest { device_label: label.to_string() }
}

fn envelope(from: u128, to: u128, payload: &str) -> SignalEnvelope {
    SignalEnvelope { from, to, payload: payload.to_string(), created_at_epoch_ms: 0 }
}

#[test]
fn register_names_clients_in_order() {
    let mut reg = SessionRegistry::new(300, 30);
    let a = reg.register_with(req("a"), 1, "tok-a".to_string(), 0);
    let b = reg.register_with(req("b"), 2, "tok-b".to_string(), 0);
    assert_eq!(a.display_name, "Client 1");
    assert_eq!(b.display_name, "Client 2");
    assert_eq!(b.client_id, 2);
    assert_eq!(b.session_token, "tok-b");
    assert_eq!(b.heartbeat_interval_secs, 30);
}

#[test]
fn register_with_random_ids() {
    let mut reg = SessionRegistry::new(300, 30);
    let a = reg.register(req("a"), 0);
    let b = reg.register(req("b"), 0);
    assert_ne!(a.client_id, b.client_id);
    assert_eq!(a.session_token.len(), 36);
    assert_eq!(a.session_token.matches('-').count(), 4);
    assert!(reg.verify_session(a.client_id, &a.session_token).is_ok());
}

#[test]
fn verify_session_errors() {
    let mut reg = SessionRegistry::new(300, 30);
    reg.register_with(req("a"), 1, "tok".to_string(), 0);
    assert_eq!(reg.verify_session(1, &"tok".to_string()), Ok(()));
    let bad = reg.verify_session(1, &"other".to_string()).unwrap_err();
    assert_eq!(bad, RegistryError::InvalidToken);
    assert_eq!(bad.status_code(), 401);
    assert_eq!(bad.message(), "session token rejected");
    let missing = reg.verify_session(9, &"tok".to_string()).unwrap_err();
    assert_eq!(missing, RegistryError::ClientNotFound);
    assert_eq!(missing.status_code(), 401);
}

#[test]
fn heartbeat_keeps_client_alive() {
    let mut reg = SessionRegistry::new(10, 5);
    reg.register_with(req("a"), 1, "tok".to_string(), 0);
    let hb = HeartbeatRequest { client_id: 1, session_token: "tok".to_string() };
    assert_eq!(reg.heartbeat(hb.clone(), 9_000).unwrap().next_heartbeat_secs, 5);
    // 10 s after registration, but only 6 s after the heartbeat
    assert!(reg.heartbeat(hb.clone(), 15_000).is_ok());
    // 10 s after the last heartbeat: pruned
    assert_eq!(reg.heartbeat(hb, 25_000).unwrap_err(), RegistryError::ClientNotFound);
}

#[test]
fn stale_clients_are_pruned_with_their_signals() {
    let mut reg = SessionRegistry::new(10, 5);
    reg.register_with(req("a"), 1, "ta".to_string(), 0);
    reg.register_with(req("b"), 2, "tb".to_string(), 5_000);
    reg.enqueue_signal(
        SignalSubmitRequest { session_token: "ta".to_string(), envelope: envelope(1, 2, "hello") },
        1_000,
        77,
    )
    .unwrap();
    reg.enqueue_signal(
        SignalSubmitRequest { session_token: "tb".to_string(), envelope: envelope(2, 2, "self") },
        1_000,
        78,
    )
    .unwrap();
    // at 10 s client 1 is stale: its signal goes, client 2's stays
    let fetched = reg
        .fetch_signals(SignalFetchRequest { client_id: 2, session_token: "tb".to_string() }, 10_000)
        .unwrap();
    assert_eq!(fetched.messages.len(), 1);
    assert_eq!(fetched.messages[0].payload, "self");
    assert_eq!(fetched.messages[0].created_at_epoch_ms, 78);
    // a newcomer is numbered after the survivors
    let c = reg.register_with(req("c"), 3, "tc".to_string(), 10_000);
    assert_eq!(c.display_name, "Client 2");
}

#[test]
fn fetch_takes_only_own_signals_once() {
    let mut reg = SessionRegistry::new(300, 30);
    reg.register_with(req("a"), 1, "ta".to_string(), 0);
    reg.register_with(req("b"), 2, "tb".to_string(), 0);
    for (i, to) in [2u128, 1, 2].iter().enumerate() {
        reg.enqueue_signal(
            SignalSubmitRequest {
                session_token: "ta".to_string(),
                envelope: envelope(1, *to, &format!("m{}", i)),
            },
            0,
            0,
        )
        .unwrap();
    }
    let fetch_b = SignalFetchRequest { client_id: 2, session_token: "tb".to_string() };
    let got = reg.fetch_signals(fetch_b.clone(), 0).unwrap();
    let payloads: Vec<String> = got.messages.iter().map(|m| m.payload.clone()).collect();
    assert_eq!(payloads, vec!["m0".to_string(), "m2".to_string()]);
    assert!(reg.fetch_signals(fetch_b, 0).unwrap().messages.is_empty());
    let bad = SignalFetchRequest { client_id: 1, session_token: "tb".to_string() };
    assert_eq!(reg.fetch_signals(bad, 0).unwrap_err(), RegistryError::InvalidToken);
}

#[test]
fn enqueue_requires_sender_session() {
    let mut reg = SessionRegistry::new(300, 30);
    let r = reg.enqueue_signal(
        SignalSubmitRequest { session_token: "x".to_string(), envelope: envelope(5, 6, "p") },
        0,
        0,
    );
    assert_eq!(r, Err(RegistryError::ClientNotFound));
}

fn record(token: &str, at: u64) -> ClientRecord {
    ClientRecord {
        device_label: "d".to_string(),
        session_token: token.to_string(),
        registered_at_ms: at,
        last_heartbeat_ms: at,
    }
}

#[test]
fn repository_operations() {
    let mut repo = InMemorySessionRepository::new();
    repo.insert_client(1, record("a", 0));
    repo.insert_client(2, record("b", 0));
    repo.insert_client(1, record("a2", 0));
    assert_eq!(repo.get_client_count(), 2);
    assert_eq!(repo.get_client(1).unwrap().session_token, "a2");
    assert!(repo.update_client_heartbeat(2, 50));
    assert_eq!(repo.get_client(2).unwrap().last_heartbeat_ms, 50);
    assert!(!repo.update_client_heartbeat(3, 50));
    repo.remove_client(1);
    assert!(repo.get_client(1).is_none());
    assert_eq!(repo.get_client_count(), 1);
}

#[test]
fn repository_prunes_in_order() {
    let mut repo = InMemorySessionRepository::new();
    repo.insert_client(1, record("a", 0));
    repo.insert_client(2, record("b", 500));
    repo.insert_client(3, record("c", 0));
    assert_eq!(repo.prune_stale_clients(1_000, 1_000), vec![1, 3]);
    assert_eq!(repo.get_client_count(), 1);
    repo.add_message(envelope(1, 2, "x"));
    repo.add_message(envelope(2, 2, "y"));
    repo.add_message(envelope(2, 3, "z"));
    repo.prune_messages_for_clients(&[1, 3]);
    let left = repo.get_messages_for_client(2);
    assert_eq!(left.len(), 1);
    assert_eq!(left[0].payload, "y");
}
