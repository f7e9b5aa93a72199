use signaling::flow::{
    mailbox_exists, InitFlow, JoinFlow, Next, RecvFlow, SendFlow, StoreAction, StoreReply,
};
use signaling::{MailboxMessageStored, MailboxState, RendezvousError};

fn s(x: &str) -> String {
    x.to_string()
}

fn unpaired(id: &str) -> MailboxState {
    MailboxState { mailbox_id: s(id), peer_mailbox_id: None, created_at_epoch_ms: 10, expires_at_epoch_ms: 60_010 }
}

fn paired(id: &str, peer: &str) -> MailboxState {
    MailboxState { peer_mailbox_id: Some(s(peer)), ..unpaired(id) }
}

#[test]
fn init_flow_runs_in_order() {
    let (mut f, next) = InitFlow::start(s("T"), s("aaaa"), 10, 60);
    assert!(matches!(next, Next::Run(StoreAction::ReadMeta { ref mailbox_id }) if mailbox_id == "aaaa"));
    match f.step(StoreReply::Meta { state: None }) {
        Next::Run(StoreAction::WriteMeta { state }) => assert_eq!(state, unpaired("aaaa")),
        _ => panic!("expected a metadata write"),
    }
    assert!(matches!(f.step(StoreReply::Written), Next::Run(StoreAction::ClearList { .. })));
    assert!(matches!(f.step(StoreReply::Written), Next::Run(StoreAction::CreateRendezvous { .. })));
    match f.step(StoreReply::Created { created: true }) {
        Next::Done(Ok(r)) => {
            assert_eq!(r.mailbox_id, "aaaa");
            assert_eq!(r.expires_at_epoch_ms, 60_010);
        }
        _ => panic!("expected success"),
    }
}

#[test]
fn init_flow_errors() {
    let (mut f, _) = InitFlow::start(s("T"), s("aaaa"), 10, 60);
    assert!(matches!(
        f.step(StoreReply::Meta { state: Some(unpaired("aaaa")) }),
        Next::Done(Err(RendezvousError::MailboxIdCollision))
    ));
    let (mut g, _) = InitFlow::start(s("T"), s("aaaa"), 10, 60);
    g.step(StoreReply::Meta { state: None });
    g.step(StoreReply::Written);
    g.step(StoreReply::Written);
    assert!(matches!(g.step(StoreReply::Created { created: false }), Next::Done(Err(RendezvousError::TokenConflict))));
    let (mut h, _) = InitFlow::start(s("T"), s("aaaa"), 10, 60);
    assert!(matches!(h.step(StoreReply::Written), Next::Done(Err(RendezvousError::Store))));
}

#[test]
fn join_flow_runs_in_order() {
    let (mut f, next) = JoinFlow::start(s("T"), s("bbbb"), 20);
    assert!(matches!(next, Next::Run(StoreAction::TakeRendezvous { .. })));
    assert!(matches!(
        f.step(StoreReply::Taken { mailbox_id: Some(s("aaaa")) }),
        Next::Run(StoreAction::ReadMeta { ref mailbox_id }) if mailbox_id == "aaaa"
    ));
    assert!(matches!(
        f.step(StoreReply::Meta { state: Some(unpaired("aaaa")) }),
        Next::Run(StoreAction::ReadMeta { ref mailbox_id }) if mailbox_id == "bbbb"
    ));
    match f.step(StoreReply::Meta { state: None }) {
        Next::Run(StoreAction::WriteMeta { state }) => assert_eq!(state, paired("aaaa", "bbbb")),
        _ => panic!("expected the initiator's write"),
    }
    match f.step(StoreReply::Written) {
        Next::Run(StoreAction::WriteMeta { state }) => assert_eq!(state, paired("bbbb", "aaaa")),
        _ => panic!("expected the responder's write"),
    }
    assert!(matches!(
        f.step(StoreReply::Written),
        Next::Run(StoreAction::ClearList { ref mailbox_id }) if mailbox_id == "bbbb"
    ));
    match f.step(StoreReply::Written) {
        Next::Run(StoreAction::Append { mailbox_id, entry }) => {
            assert_eq!(mailbox_id, "aaaa");
            assert_eq!(entry.from_mailbox_id, "bbbb");
            assert_eq!(entry.ciphertext_b64, "");
        }
        _ => panic!("expected the append"),
    }
    match f.step(StoreReply::Appended { new_len: 1 }) {
        Next::Done(Ok((resp, initiator, joined))) => {
            assert_eq!(resp.mailbox_id, "bbbb");
            assert_eq!(resp.expires_at_epoch_ms, 60_010);
            assert_eq!(initiator, "aaaa");
            assert_eq!(joined.sequence, 0);
            assert_eq!(joined.timestamp_epoch_ms, 20);
        }
        _ => panic!("expected success"),
    }
}

#[test]
fn join_flow_errors() {
    let (mut f, _) = JoinFlow::start(s("T"), s("bbbb"), 20);
    assert!(matches!(f.step(StoreReply::Taken { mailbox_id: None }), Next::Done(Err(RendezvousError::InvalidToken))));
    let (mut g, _) = JoinFlow::start(s("T"), s("bbbb"), 20);
    g.step(StoreReply::Taken { mailbox_id: Some(s("aaaa")) });
    assert!(matches!(
        g.step(StoreReply::Meta { state: Some(paired("aaaa", "cccc")) }),
        Next::Done(Err(RendezvousError::SessionAlreadyPaired))
    ));
    let (mut h, _) = JoinFlow::start(s("T"), s("bbbb"), 20);
    h.step(StoreReply::Taken { mailbox_id: Some(s("aaaa")) });
    h.step(StoreReply::Meta { state: Some(unpaired("aaaa")) });
    assert!(matches!(
        h.step(StoreReply::Meta { state: Some(unpaired("bbbb")) }),
        Next::Done(Err(RendezvousError::MailboxIdCollision))
    ));
}

#[test]
fn send_flow_numbers_by_reported_length() {
    let (mut f, _) = SendFlow::start(s("aaaa"), s("ct"), 30);
    match f.step(StoreReply::Meta { state: Some(paired("aaaa", "bbbb")) }) {
        Next::Run(StoreAction::Append { mailbox_id, .. }) => assert_eq!(mailbox_id, "bbbb"),
        _ => panic!("expected the append"),
    }
    match f.step(StoreReply::Appended { new_len: 4 }) {
        Next::Done(Ok((peer, msg))) => {
            assert_eq!(peer, "bbbb");
            assert_eq!(msg.sequence, 3);
            assert_eq!(msg.ciphertext_b64, "ct");
        }
        _ => panic!("expected success"),
    }
    let (mut g, _) = SendFlow::start(s("aaaa"), s("ct"), 30);
    assert!(matches!(
        g.step(StoreReply::Meta { state: Some(unpaired("aaaa")) }),
        Next::Done(Err(RendezvousError::NoPeerConnected))
    ));
    let (mut h, _) = SendFlow::start(s("aaaa"), s("ct"), 60_010);
    assert!(matches!(
        h.step(StoreReply::Meta { state: Some(paired("aaaa", "bbbb")) }),
        Next::Done(Err(RendezvousError::SessionExpired))
    ));
}

#[test]
fn recv_flow_numbers_by_position() {
    let (mut f, _) = RecvFlow::start(s("aaaa"));
    assert!(matches!(f.step(StoreReply::Meta { state: Some(unpaired("aaaa")) }), Next::Run(StoreAction::ReadList { .. })));
    let e = |c: &str| MailboxMessageStored { from_mailbox_id: s("bbbb"), ciphertext_b64: s(c), sequence: 0, timestamp_epoch_ms: 1 };
    match f.step(StoreReply::List { entries: vec![e("x"), e("y")] }) {
        Next::Done(Ok(r)) => {
            assert_eq!(r.messages[1].sequence, 1);
            assert_eq!(r.messages[1].ciphertext_b64, "y");
            assert_eq!(r.last_sequence, 1);
        }
        _ => panic!("expected the list"),
    }
    let (mut g, _) = RecvFlow::start(s("zz"));
    assert!(matches!(g.step(StoreReply::Meta { state: None }), Next::Done(Err(RendezvousError::MailboxNotFound))));
    assert_eq!(mailbox_exists(&None), Err(RendezvousError::MailboxNotFound));
    assert_eq!(mailbox_exists(&Some(unpaired("a"))), Ok(()));
}
