use signaling::push::PushHub;
use signaling::rendezvous::{
    appended_sequence, check_joinable, number_in_order, rendezvous_ttl_secs, RendezvousService,
};
use signaling::{MailboxMessageStored, MailboxState, RendezvousError};

const TTL: u64 = 60;
const T0: u128 = 1_000_000;

fn s(x: &str) -> String {
    x.to_string()
}

/// init("T") then join("T"), with fixed mailbox ids.
fn linked() -> (RendezvousService, String, String, u128) {
    let mut svc = RendezvousService::new(TTL);
    let init = svc.init_connection_with(s("T"), s("aaaa"), T0).unwrap();
    let (join, initiator, _) = svc.join_connection_with(s("T"), s("bbbb"), T0 + 10).unwrap();
    assert_eq!(initiator, init.mailbox_id);
    (svc, init.mailbox_id, join.mailbox_id, init.expires_at_epoch_ms)
}

#[test]
fn init_returns_mailbox_and_expiry() {
    let mut svc = RendezvousService::new(TTL);
    let r = svc.init_connection_with(s("T"), s("aaaa"), T0).unwrap();
    assert_eq!(r.mailbox_id, "aaaa");
    assert_eq!(r.expires_at_epoch_ms, T0 + 60_000);
}

#[test]
fn init_with_random_id() {
    let mut svc = RendezvousService::new(TTL);
    let r = svc.init_connection(s("T"), T0).unwrap();
    assert_eq!(r.mailbox_id.len(), 32);
    assert!(svc.verify_mailbox(&r.mailbox_id, T0).is_ok());
}

#[test]
fn join_shares_expiry_and_links_pair() {
    let (svc, a, b, e) = linked();
    let mut svc = svc;
    // both sides now accept sends: each has a peer
    let (peer_of_a, _) = svc.send_message(a.clone(), s("x"), T0 + 20).unwrap();
    let (peer_of_b, _) = svc.send_message(b.clone(), s("y"), T0 + 20).unwrap();
    assert_eq!(peer_of_a, b);
    assert_eq!(peer_of_b, a);
    assert_eq!(e, T0 + 60_000);
}

#[test]
fn join_reports_initiators_expiry() {
    let mut svc = RendezvousService::new(TTL);
    let init = svc.init_connection_with(s("T"), s("aaaa"), T0).unwrap();
    let (join, _, _) = svc.join_connection(s("T"), T0 + 5_000).unwrap();
    assert_eq!(join.expires_at_epoch_ms, init.expires_at_epoch_ms);
    assert_eq!(join.mailbox_id.len(), 32);
}

#[test]
fn second_join_is_invalid_token() {
    let (mut svc, _, _, _) = linked();
    let err = svc.join_connection_with(s("T"), s("cccc"), T0 + 20).unwrap_err();
    assert_eq!(err, RendezvousError::InvalidToken);
    assert_eq!(err.status_code(), 404);
}

#[test]
fn send_then_recv_first_message() {
    let (mut svc, a, b, _) = linked();
    svc.send_message(a.clone(), s("ct1"), T0 + 20).unwrap();
    let r = svc.recv_messages(&b, T0 + 30).unwrap();
    assert_eq!(r.messages.len(), 1);
    assert_eq!(r.messages[0].from_mailbox_id, a);
    assert_eq!(r.messages[0].ciphertext_b64, "ct1");
    assert_eq!(r.messages[0].sequence, 0);
    assert_eq!(r.messages[0].timestamp_epoch_ms, T0 + 20);
    assert_eq!(r.last_sequence, 0);
}

#[test]
fn three_sends_in_order() {
    let (mut svc, a, b, _) = linked();
    svc.send_message(a.clone(), s("ct1"), T0 + 20).unwrap();
    svc.send_message(a.clone(), s("ct2"), T0 + 21).unwrap();
    svc.send_message(a.clone(), s("ct3"), T0 + 22).unwrap();
    let r = svc.recv_messages(&b, T0 + 30).unwrap();
    let seqs: Vec<u64> = r.messages.iter().map(|m| m.sequence).collect();
    let cts: Vec<&str> = r.messages.iter().map(|m| m.ciphertext_b64.as_str()).collect();
    assert_eq!(seqs, vec![0, 1, 2]);
    assert_eq!(cts, vec!["ct1", "ct2", "ct3"]);
    assert_eq!(r.last_sequence, 2);
}

#[test]
fn initiator_sees_peer_joined_entry() {
    let (svc, a, b, _) = linked();
    let r = svc.recv_messages(&a, T0 + 20).unwrap();
    assert_eq!(r.messages.len(), 1);
    assert_eq!(r.messages[0].from_mailbox_id, b);
    assert_eq!(r.messages[0].ciphertext_b64, "");
    assert_eq!(r.messages[0].sequence, 0);
    assert_eq!(r.last_sequence, 0);
}

#[test]
fn subscriber_receives_join_event() {
    let mut svc = RendezvousService::new(TTL);
    let mut hub = PushHub::new();
    let init = svc.init_connection_with(s("U"), s("aaaa"), T0).unwrap();
    assert!(svc.verify_mailbox(&init.mailbox_id, T0 + 1).is_ok());
    let mut rx = hub.subscribe(&init.mailbox_id);
    let (_, initiator, joined) = svc.join_connection_with(s("U"), s("bbbb"), T0 + 2).unwrap();
    let frame = format!("{}|{}|{}", joined.from_mailbox_id, joined.ciphertext_b64, joined.sequence);
    assert!(hub.notify(&initiator, frame.clone()));
    assert_eq!(rx.try_recv().unwrap(), frame);
    assert!(rx.try_recv().is_err());
    let listed = svc.recv_messages(&initiator, T0 + 3).unwrap();
    assert_eq!(listed.messages[0].from_mailbox_id, joined.from_mailbox_id);
    assert_eq!(listed.messages[0].sequence, joined.sequence);
}

#[test]
fn notify_without_channel_is_noop() {
    let mut hub = PushHub::new();
    assert!(!hub.notify(&s("nobody"), s("m")));
    let mut rx = hub.subscribe(&s("a"));
    let _other = hub.subscribe(&s("b"));
    assert!(hub.notify(&s("b"), s("for b")));
    assert!(rx.try_recv().is_err());
    assert!(hub.notify(&s("a"), s("for a")));
    assert_eq!(rx.try_recv().unwrap(), "for a");
}

#[test]
fn second_init_same_token_conflicts() {
    let mut svc = RendezvousService::new(TTL);
    svc.init_connection_with(s("T"), s("aaaa"), T0).unwrap();
    let err = svc.init_connection_with(s("T"), s("cccc"), T0 + 1).unwrap_err();
    assert_eq!(err, RendezvousError::TokenConflict);
    assert_eq!(err.status_code(), 409);
    // the first mapping still leads to the first mailbox
    let (_, initiator, _) = svc.join_connection_with(s("T"), s("bbbb"), T0 + 2).unwrap();
    assert_eq!(initiator, "aaaa");
}

#[test]
fn init_after_token_expiry_is_allowed() {
    let mut svc = RendezvousService::new(TTL);
    svc.init_connection_with(s("T"), s("aaaa"), T0).unwrap();
    assert!(svc.init_connection_with(s("T"), s("cccc"), T0 + 60_000).is_ok());
}

#[test]
fn send_before_join_is_no_peer() {
    let mut svc = RendezvousService::new(TTL);
    svc.init_connection_with(s("T"), s("aaaa"), T0).unwrap();
    let err = svc.send_message(s("aaaa"), s("ct"), T0 + 1).unwrap_err();
    assert_eq!(err, RendezvousError::NoPeerConnected);
    assert_eq!(err.status_code(), 409);
}

#[test]
fn send_to_unknown_mailbox_is_not_found() {
    let mut svc = RendezvousService::new(TTL);
    let err = svc.send_message(s("zzzz"), s("ct"), T0).unwrap_err();
    assert_eq!(err, RendezvousError::MailboxNotFound);
    assert_eq!(err.status_code(), 404);
}

#[test]
fn send_after_expiry_is_gone() {
    let (mut svc, a, _, e) = linked();
    // the initiator's metadata was rewritten by the join, so it is still
    // stored after the pair's expiry
    let err = svc.send_message(a, s("late"), e).unwrap_err();
    assert_eq!(err, RendezvousError::SessionExpired);
    assert_eq!(err.status_code(), 410);
}

#[test]
fn recv_after_eviction_is_not_found() {
    let (svc, _, b, _) = linked();
    let evicted = T0 + 10 + 60_000;
    assert_eq!(svc.recv_messages(&b, evicted).unwrap_err(), RendezvousError::MailboxNotFound);
    assert!(svc.verify_mailbox(&b, evicted).is_err());
}

#[test]
fn recv_is_idempotent() {
    let (mut svc, a, b, _) = linked();
    svc.send_message(a, s("ct1"), T0 + 20).unwrap();
    let r1 = svc.recv_messages(&b, T0 + 30).unwrap();
    let r2 = svc.recv_messages(&b, T0 + 31).unwrap();
    assert_eq!(r1, r2);
}

#[test]
fn unknown_mailbox_fails_verification() {
    let svc = RendezvousService::new(TTL);
    let err = svc.verify_mailbox(&s("nope"), T0).unwrap_err();
    assert_eq!(err, RendezvousError::MailboxNotFound);
    assert_eq!(err.status_code(), 404);
}

#[test]
fn join_with_unknown_token_is_invalid() {
    let mut svc = RendezvousService::new(TTL);
    assert_eq!(
        svc.join_connection_with(s("nope"), s("bbbb"), T0).unwrap_err(),
        RendezvousError::InvalidToken
    );
}

#[test]
fn join_after_token_expiry_is_invalid() {
    let mut svc = RendezvousService::new(TTL);
    svc.init_connection_with(s("T"), s("aaaa"), T0).unwrap();
    assert_eq!(
        svc.join_connection_with(s("T"), s("bbbb"), T0 + 60_000).unwrap_err(),
        RendezvousError::InvalidToken
    );
}

#[test]
fn paired_mailbox_is_not_joinable() {
    let paired = MailboxState {
        mailbox_id: s("aaaa"),
        peer_mailbox_id: Some(s("bbbb")),
        created_at_epoch_ms: T0,
        expires_at_epoch_ms: T0 + 60_000,
    };
    let err = check_joinable(Some(paired)).unwrap_err();
    assert_eq!(err, RendezvousError::SessionAlreadyPaired);
    assert_eq!(err.status_code(), 409);
    assert_eq!(check_joinable(None).unwrap_err(), RendezvousError::MailboxNotFound);
}

#[test]
fn init_refuses_a_mailbox_id_in_use() {
    let mut svc = RendezvousService::new(TTL);
    svc.init_connection_with(s("T1"), s("aaaa"), T0).unwrap();
    let err = svc.init_connection_with(s("T2"), s("aaaa"), T0 + 1).unwrap_err();
    assert_eq!(err, RendezvousError::MailboxIdCollision);
    assert_eq!(err.status_code(), 500);
    // the refused init mapped nothing
    assert_eq!(
        svc.join_connection_with(s("T2"), s("bbbb"), T0 + 2).unwrap_err(),
        RendezvousError::InvalidToken
    );
}

#[test]
fn join_refuses_a_responder_id_in_use() {
    let mut svc = RendezvousService::new(TTL);
    svc.init_connection_with(s("T1"), s("aaaa"), T0).unwrap();
    svc.init_connection_with(s("T2"), s("cccc"), T0).unwrap();
    let same = svc.join_connection_with(s("T1"), s("aaaa"), T0 + 1).unwrap_err();
    assert_eq!(same, RendezvousError::MailboxIdCollision);
    let taken = svc.join_connection_with(s("T2"), s("aaaa"), T0 + 1).unwrap_err();
    assert_eq!(taken, RendezvousError::MailboxIdCollision);
}

#[test]
fn token_expires_before_mailbox() {
    let mut svc = RendezvousService::new(TTL);
    let init = svc.init_connection_with(s("T"), s("aaaa"), T0).unwrap();
    // one second before the mailbox expires, the token is already gone
    let at = init.expires_at_epoch_ms - 1_000;
    assert!(svc.verify_mailbox(&s("aaaa"), at).is_ok());
    assert_eq!(
        svc.join_connection_with(s("T"), s("bbbb"), at).unwrap_err(),
        RendezvousError::InvalidToken
    );
}

#[test]
fn numbering_by_position() {
    assert_eq!(appended_sequence(0), Err(RendezvousError::Store));
    assert_eq!(appended_sequence(3), Ok(2));
    let entry = |c: &str| MailboxMessageStored {
        from_mailbox_id: s("m"),
        ciphertext_b64: s(c),
        sequence: 7,
        timestamp_epoch_ms: 5,
    };
    let numbered = number_in_order(vec![entry("a"), entry("b")]);
    assert_eq!(numbered[0].sequence, 0);
    assert_eq!(numbered[1].sequence, 1);
    assert_eq!(numbered[1].ciphertext_b64, "b");
    assert_eq!(numbered[1].timestamp_epoch_ms, 5);
}

#[test]
fn rendezvous_ttl_is_capped() {
    assert_eq!(rendezvous_ttl_secs(0), 0);
    assert_eq!(rendezvous_ttl_secs(1), 0);
    assert_eq!(rendezvous_ttl_secs(30), 29);
    assert_eq!(rendezvous_ttl_secs(300), 299);
    assert_eq!(rendezvous_ttl_secs(301), 300);
    assert_eq!(rendezvous_ttl_secs(3600), 300);
}

#[test]
fn error_statuses_and_messages() {
    assert_eq!(RendezvousError::Store.status_code(), 500);
    assert_eq!(RendezvousError::SessionAlreadyPaired.status_code(), 409);
    assert_eq!(RendezvousError::MailboxNotFound.message(), "Mailbox not found");
    assert_eq!(RendezvousError::InvalidToken.message(), "Invalid or expired token");
}
