//! The rendezvous coordinator: init, join, send and recv over a mailbox
//! store, and the pairing state machine that they enforce.
use vstd::prelude::*;
use crate::model::{
    copy_opt_string, ConnectionInitResponse, ConnectionJoinResponse, MailboxMessage,
    MailboxMessageStored, MailboxRecvResponse, MailboxState, MailboxStateView, MessageView,
    RendezvousError,
};
use crate::connection::gen_mailbox_id;
use crate::encoding::hex_lower;
use crate::store::{
    expiry_after, expiry_from, is_live, list_at, meta_at, messages_view, store_with_appended,
    store_with_meta, store_with_token, store_without_list, store_without_token, token_at,
    MemoryStore, StoreModel,
};

verus! {

/// The longest time to live of a rendezvous mapping, in seconds.
pub const MAX_RENDEZVOUS_TTL_SECS: u64 = 300;

/// A rendezvous mapping lives five minutes at most, and strictly shorter
/// than the mailboxes it leads to (a second less, where they live at all).
pub open spec fn rendezvous_ttl(mailbox_ttl_secs: u64) -> u64 {
    if mailbox_ttl_secs == 0 {
        0
    } else if mailbox_ttl_secs - 1 < MAX_RENDEZVOUS_TTL_SECS {
        (mailbox_ttl_secs - 1) as u64
    } else {
        MAX_RENDEZVOUS_TTL_SECS
    }
}

pub fn rendezvous_ttl_secs(mailbox_ttl_secs: u64) -> (r: u64)
    ensures
        r == rendezvous_ttl(mailbox_ttl_secs),
        r <= MAX_RENDEZVOUS_TTL_SECS,
        mailbox_ttl_secs > 0 ==> r < mailbox_ttl_secs,
{
    if mailbox_ttl_secs == 0 {
        0
    } else if mailbox_ttl_secs - 1 < MAX_RENDEZVOUS_TTL_SECS {
        mailbox_ttl_secs - 1
    } else {
        MAX_RENDEZVOUS_TTL_SECS
    }
}

// ---------------------------------------------------------------------
// Decisions, shared by every store
// ---------------------------------------------------------------------

/// The metadata of a mailbox that an init creates.
pub open spec fn fresh_state(id: Seq<char>, now: u128, ttl_secs: u64) -> MailboxStateView {
    MailboxStateView {
        mailbox_id: id,
        peer_mailbox_id: None,
        created_at_epoch_ms: now,
        expires_at_epoch_ms: expiry_after(now, ttl_secs),
    }
}

/// Builds the unpaired metadata of a new mailbox.
pub fn new_mailbox_state(mailbox_id: String, now: u128, ttl_secs: u64) -> (r: MailboxState)
    ensures
        r@ == fresh_state(mailbox_id@, now, ttl_secs),
{
    MailboxState {
        mailbox_id,
        peer_mailbox_id: None,
        created_at_epoch_ms: now,
        expires_at_epoch_ms: expiry_from(now, ttl_secs),
    }
}

/// Whether the metadata read for a join allows it: the mailbox exists and
/// has no peer yet.
pub open spec fn joinable(meta: Option<MailboxStateView>) -> Result<MailboxStateView, RendezvousError> {
    match meta {
        None => Err(RendezvousError::MailboxNotFound),
        Some(st) => if st.peer_mailbox_id is Some {
            Err(RendezvousError::SessionAlreadyPaired)
        } else {
            Ok(st)
        },
    }
}

/// Checks the initiator's metadata that a join has read.
pub fn check_joinable(meta: Option<MailboxState>) -> (r: Result<MailboxState, RendezvousError>)
    ensures
        match r {
            Ok(st) => meta is Some && joinable(Some(meta->Some_0@)) == Ok::<MailboxStateView, RendezvousError>(st@),
            Err(e) => match meta {
                Some(m) => joinable(Some(m@)) == Err::<MailboxStateView, RendezvousError>(e),
                None => joinable(None) == Err::<MailboxStateView, RendezvousError>(e),
            },
        },
{
    match meta {
        None => Err(RendezvousError::MailboxNotFound),
        Some(st) => if st.peer_mailbox_id.is_some() {
            Err(RendezvousError::SessionAlreadyPaired)
        } else {
            Ok(st)
        },
    }
}

/// The initiator's metadata once linked to the responder.
pub open spec fn linked_initiator(st: MailboxStateView, responder: Seq<char>) -> MailboxStateView {
    MailboxStateView { peer_mailbox_id: Some(responder), ..st }
}

/// The responder's metadata: linked back to the initiator, with the same
/// creation and expiry times.
pub open spec fn responder_state(initiator: MailboxStateView, responder: Seq<char>) -> MailboxStateView {
    MailboxStateView {
        mailbox_id: responder,
        peer_mailbox_id: Some(initiator.mailbox_id),
        created_at_epoch_ms: initiator.created_at_epoch_ms,
        expires_at_epoch_ms: initiator.expires_at_epoch_ms,
    }
}

/// Links a joinable initiator to a fresh responder mailbox; returns the
/// new metadata of both sides.
pub fn link_pair(initiator: MailboxState, responder_id: &String) -> (r: (MailboxState, MailboxState))
    ensures
        r.0@ == linked_initiator(initiator@, responder_id@),
        r.1@ == responder_state(initiator@, responder_id@),
{
    let responder = MailboxState {
        mailbox_id: responder_id.clone(),
        peer_mailbox_id: Some(initiator.mailbox_id.clone()),
        created_at_epoch_ms: initiator.created_at_epoch_ms,
        expires_at_epoch_ms: initiator.expires_at_epoch_ms,
    };
    let linked = MailboxState {
        mailbox_id: initiator.mailbox_id,
        peer_mailbox_id: Some(responder_id.clone()),
        created_at_epoch_ms: initiator.created_at_epoch_ms,
        expires_at_epoch_ms: initiator.expires_at_epoch_ms,
    };
    (linked, responder)
}

/// A message appended at `now` with sequence number `seq`.
pub open spec fn message_at(from: Seq<char>, ciphertext: Seq<char>, seq: u64, now: u128) -> MessageView {
    MessageView { from_mailbox_id: from, ciphertext_b64: ciphertext, sequence: seq, timestamp_epoch_ms: now }
}

/// The synthetic "peer joined" entry: from the responder, with an empty payload.
pub fn join_message(responder_id: &String, seq: u64, now: u128) -> (r: MailboxMessageStored)
    ensures
        r@ == message_at(responder_id@, Seq::empty(), seq, now),
{
    MailboxMessageStored {
        from_mailbox_id: responder_id.clone(),
        ciphertext_b64: String::new(),
        sequence: seq,
        timestamp_epoch_ms: now,
    }
}

/// A peer's message to the other side of its pair.
pub fn outgoing_message(from: String, ciphertext_b64: String, seq: u64, now: u128) -> (r: MailboxMessageStored)
    ensures
        r@ == message_at(from@, ciphertext_b64@, seq, now),
{
    MailboxMessageStored { from_mailbox_id: from, ciphertext_b64, sequence: seq, timestamp_epoch_ms: now }
}

/// Whether a send is allowed, given the sender's metadata: the peer it goes
/// to, or why not (absent, not yet joined, past its expiry; in that order).
pub open spec fn sendable(meta: Option<MailboxStateView>, now: u128) -> Result<Seq<char>, RendezvousError> {
    match meta {
        None => Err(RendezvousError::MailboxNotFound),
        Some(st) => match st.peer_mailbox_id {
            None => Err(RendezvousError::NoPeerConnected),
            Some(peer) => if now >= st.expires_at_epoch_ms {
                Err(RendezvousError::SessionExpired)
            } else {
                Ok(peer)
            },
        },
    }
}

/// Checks a send against the sender's metadata; returns the peer's mailbox.
pub fn check_sendable(meta: &Option<MailboxState>, now: u128) -> (r: Result<String, RendezvousError>)
    ensures
        match r {
            Ok(peer) => match meta {
                Some(m) => sendable(Some(m@), now) == Ok::<Seq<char>, RendezvousError>(peer@),
                None => false,
            },
            Err(e) => match meta {
                Some(m) => sendable(Some(m@), now) == Err::<Seq<char>, RendezvousError>(e),
                None => sendable(None, now) == Err::<Seq<char>, RendezvousError>(e),
            },
        },
{
    match meta {
        None => Err(RendezvousError::MailboxNotFound),
        Some(st) => match copy_opt_string(&st.peer_mailbox_id) {
            None => Err(RendezvousError::NoPeerConnected),
            Some(peer) => if now >= st.expires_at_epoch_ms {
                Err(RendezvousError::SessionExpired)
            } else {
                Ok(peer)
            },
        },
    }
}

/// The last sequence number of a list, or 0 for an empty one.
pub open spec fn last_sequence_of(msgs: Seq<MessageView>) -> u64 {
    if msgs.len() == 0 {
        0
    } else {
        msgs.last().sequence
    }
}

/// Turns a mailbox's stored list into the answer to a recv.
pub fn recv_response(stored: Vec<MailboxMessageStored>) -> (r: MailboxRecvResponse)
    ensures
        r.messages@.map_values(|m: MailboxMessage| m@) == messages_view(stored@),
        r.last_sequence == last_sequence_of(messages_view(stored@)),
{
    let mut messages: Vec<MailboxMessage> = Vec::new();
    let mut i: usize = 0;
    while i < stored.len()
        invariant
            i <= stored@.len(),
            messages@.len() == i,
            forall|j: int| 0 <= j < i ==> #[trigger] messages@[j]@ == stored@[j]@,
        decreases stored@.len() - i,
    {
        let s = &stored[i];
        messages.push(
            MailboxMessage {
                from_mailbox_id: s.from_mailbox_id.clone(),
                ciphertext_b64: s.ciphertext_b64.clone(),
                sequence: s.sequence,
                timestamp_epoch_ms: s.timestamp_epoch_ms,
            },
        );
        i = i + 1;
    }
    assert(messages@.map_values(|m: MailboxMessage| m@) =~= messages_view(stored@));
    let last_sequence = if messages.len() == 0 {
        0
    } else {
        messages[messages.len() - 1].sequence
    };
    MailboxRecvResponse { messages, last_sequence }
}

} // verus!

verus! {

// ---------------------------------------------------------------------
// The protocol over a store, as functions on the store's value
// ---------------------------------------------------------------------

/// Every metadata record sits under its own mailbox id.
pub open spec fn metas_keyed(s: StoreModel) -> bool {
    forall|k: Seq<char>| #[trigger] s.metas.contains_key(k) ==> s.metas[k].0.mailbox_id == k
}

/// Within every list, each message's sequence number is its position.
pub open spec fn lists_dense(s: StoreModel) -> bool {
    forall|k: Seq<char>, i: int|
        #[trigger] s.lists.contains_key(k) && 0 <= i < s.lists[k].0.len() ==> #[trigger] s.lists[k].0[i].sequence
            == i
}

/// Every list fits in memory: no longer than the largest `usize`.
pub open spec fn lists_bounded(s: StoreModel) -> bool {
    forall|k: Seq<char>| #[trigger] s.lists.contains_key(k) ==> s.lists[k].0.len() <= usize::MAX
}

pub open spec fn service_inv(s: StoreModel) -> bool {
    metas_keyed(s) && lists_dense(s) && lists_bounded(s)
}

/// init: refuse an id already in the store; create the initiator's
/// mailbox, empty its list, then map the token to it unless the token is
/// already live.
pub open spec fn init_spec(s: StoreModel, ttl: u64, token: Seq<char>, id: Seq<char>, now: u128) -> (
    StoreModel,
    Result<(Seq<char>, u128), RendezvousError>,
) {
    if s.metas.contains_key(id) {
        (s, Err(RendezvousError::MailboxIdCollision))
    } else {
        let st = fresh_state(id, now, ttl);
        let s1 = store_without_list(store_with_meta(s, st, expiry_after(now, ttl)), id);
        if token_at(s1, token, now) is Some {
            (s1, Err(RendezvousError::TokenConflict))
        } else {
            (
                store_with_token(s1, token, id, expiry_after(now, rendezvous_ttl(ttl))),
                Ok((id, st.expires_at_epoch_ms)),
            )
        }
    }
}

/// What a successful join yields.
pub struct JoinOutcome {
    pub responder: Seq<char>,
    pub expires_at_epoch_ms: u128,
    pub initiator: Seq<char>,
    pub joined: MessageView,
}

/// join: consume the token, check the initiator, refuse a responder id
/// already in the store, link both sides, and append the "peer joined"
/// entry to the initiator's list.
pub open spec fn join_spec(s: StoreModel, ttl: u64, token: Seq<char>, rid: Seq<char>, now: u128) -> (
    StoreModel,
    Result<JoinOutcome, RendezvousError>,
) {
    let s1 = store_without_token(s, token);
    match token_at(s, token, now) {
        None => (s1, Err(RendezvousError::InvalidToken)),
        Some(iid) => match joinable(meta_at(s1, iid, now)) {
            Err(e) => (s1, Err(e)),
            Ok(ist) => if s1.metas.contains_key(rid) {
                (s1, Err(RendezvousError::MailboxIdCollision))
            } else {
                let s2 = store_with_meta(s1, linked_initiator(ist, rid), expiry_after(now, ttl));
                let s3 = store_with_meta(s2, responder_state(ist, rid), expiry_after(now, ttl));
                let s4 = store_without_list(s3, rid);
                let msg = message_at(rid, Seq::empty(), list_at(s4, iid, now).len() as u64, now);
                (
                    store_with_appended(s4, iid, msg, now, expiry_after(now, ttl)),
                    Ok(
                        JoinOutcome {
                            responder: rid,
                            expires_at_epoch_ms: ist.expires_at_epoch_ms,
                            initiator: iid,
                            joined: msg,
                        },
                    ),
                )
            },
        },
    }
}

/// send: append to the peer's list, numbered by the list's length.
pub open spec fn send_spec(s: StoreModel, ttl: u64, id: Seq<char>, ciphertext: Seq<char>, now: u128) -> (
    StoreModel,
    Result<(Seq<char>, MessageView), RendezvousError>,
) {
    match sendable(meta_at(s, id, now), now) {
        Err(e) => (s, Err(e)),
        Ok(peer) => {
            let msg = message_at(id, ciphertext, list_at(s, peer, now).len() as u64, now);
            (store_with_appended(s, peer, msg, now, expiry_after(now, ttl)), Ok((peer, msg)))
        },
    }
}

/// recv: the mailbox's whole list, oldest first, if the mailbox exists.
pub open spec fn recv_spec(s: StoreModel, id: Seq<char>, now: u128) -> Result<Seq<MessageView>, RendezvousError> {
    if meta_at(s, id, now) is None {
        Err(RendezvousError::MailboxNotFound)
    } else {
        Ok(list_at(s, id, now))
    }
}

// ---------------------------------------------------------------------
// The coordinator over an in-process store
// ---------------------------------------------------------------------

/// The rendezvous coordinator. Its value is the value of its store.
pub struct RendezvousService {
    store: MemoryStore,
    mailbox_ttl_secs: u64,
}

impl View for RendezvousService {
    type V = StoreModel;

    closed spec fn view(&self) -> StoreModel {
        self.store@
    }
}

impl RendezvousService {
    pub closed spec fn wf(&self) -> bool {
        self.store.wf() && service_inv(self.store@)
    }

    /// Time to live of mailboxes and their lists, in seconds.
    pub closed spec fn ttl(&self) -> u64 {
        self.mailbox_ttl_secs
    }

    /// What a well-formed service guarantees of its store: metadata under
    /// its own id, dense sequence numbers, lists that fit in memory.
    pub proof fn lemma_inv(&self)
        requires
            self.wf(),
        ensures
            service_inv(self@),
    {
    }

    pub fn mailbox_ttl_secs(&self) -> (r: u64)
        ensures
            r == self.ttl(),
    {
        self.mailbox_ttl_secs
    }

    pub fn new(mailbox_ttl_secs: u64) -> (r: Self)
        ensures
            r.wf(),
            r@ == crate::store::empty_store(),
            r.ttl() == mailbox_ttl_secs,
    {
        RendezvousService { store: MemoryStore::new(), mailbox_ttl_secs }
    }

    /// init with a given mailbox id at a given time.
    pub fn init_connection_with(&mut self, rendezvous_id_b64: String, mailbox_id: String, now_ms: u128) -> (r: Result<
        ConnectionInitResponse,
        RendezvousError,
    >)
        requires
            old(self).wf(),
        ensures
            final(self).wf(),
            final(self).ttl() == old(self).ttl(),
            final(self)@ == init_spec(
                old(self)@,
                old(self).ttl(),
                rendezvous_id_b64@,
                mailbox_id@,
                now_ms,
            ).0,
            match r {
                Ok(resp) => init_spec(
                    old(self)@,
                    old(self).ttl(),
                    rendezvous_id_b64@,
                    mailbox_id@,
                    now_ms,
                ).1 == Ok::<(Seq<char>, u128), RendezvousError>(
                    (resp.mailbox_id@, resp.expires_at_epoch_ms),
                ),
                Err(e) => init_spec(
                    old(self)@,
                    old(self).ttl(),
                    rendezvous_id_b64@,
                    mailbox_id@,
                    now_ms,
                ).1 == Err::<(Seq<char>, u128), RendezvousError>(e),
            },
    {
        let ttl = self.mailbox_ttl_secs;
        if self.store.has_meta(&mailbox_id) {
            return Err(RendezvousError::MailboxIdCollision);
        }
        let state = new_mailbox_state(mailbox_id.clone(), now_ms, ttl);
        let expires = state.expires_at_epoch_ms;
        self.store.put_meta(state, ttl, now_ms);
        self.store.clear_list(&mailbox_id);
        let created = self.store.put_rendezvous(
            rendezvous_id_b64,
            mailbox_id.clone(),
            rendezvous_ttl_secs(ttl),
            now_ms,
        );
        if !created {
            Err(RendezvousError::TokenConflict)
        } else {
            Ok(ConnectionInitResponse { mailbox_id, expires_at_epoch_ms: expires })
        }
    }

    /// join with a given responder mailbox id at a given time. Hands back
    /// the response, the initiator's mailbox id and the "peer joined" entry
    /// that was appended to the initiator's list.
    pub fn join_connection_with(&mut self, token_b64: String, responder_id: String, now_ms: u128) -> (r: Result<
        (ConnectionJoinResponse, String, MailboxMessageStored),
        RendezvousError,
    >)
        requires
            old(self).wf(),
        ensures
            final(self).wf(),
            final(self).ttl() == old(self).ttl(),
            final(self)@ == join_spec(
                old(self)@,
                old(self).ttl(),
                token_b64@,
                responder_id@,
                now_ms,
            ).0,
            match r {
                Ok((resp, initiator, joined)) => join_spec(
                    old(self)@,
                    old(self).ttl(),
                    token_b64@,
                    responder_id@,
                    now_ms,
                ).1 == Ok::<JoinOutcome, RendezvousError>(
                    JoinOutcome {
                        responder: resp.mailbox_id@,
                        expires_at_epoch_ms: resp.expires_at_epoch_ms,
                        initiator: initiator@,
                        joined: joined@,
                    },
                ),
                Err(e) => join_spec(
                    old(self)@,
                    old(self).ttl(),
                    token_b64@,
                    responder_id@,
                    now_ms,
                ).1 == Err::<JoinOutcome, RendezvousError>(e),
            },
    {
        let ttl = self.mailbox_ttl_secs;
        let taken = self.store.take_rendezvous(&token_b64, now_ms);
        let initiator_id = match taken {
            Some(id) => id,
            None => {
                return Err(RendezvousError::InvalidToken);
            },
        };
        let meta = self.store.get_meta(&initiator_id, now_ms);
        let initiator = match check_joinable(meta) {
            Ok(st) => st,
            Err(e) => {
                return Err(e);
            },
        };
        assert(initiator.mailbox_id@ == initiator_id@);
        if self.store.has_meta(&responder_id) {
            return Err(RendezvousError::MailboxIdCollision);
        }
        let expires = initiator.expires_at_epoch_ms;
        let (linked, responder) = link_pair(initiator, &responder_id);
        self.store.put_meta(linked, ttl, now_ms);
        self.store.put_meta(responder, ttl, now_ms);
        self.store.clear_list(&responder_id);
        let len = self.store.list_len(&initiator_id, now_ms);
        let seq = len as u64;
        let joined = join_message(&responder_id, seq, now_ms);
        let ghost s4 = self@;
        self.store.append(initiator_id.clone(), joined.copy(), ttl, now_ms);
        proof {
            lemma_append_dense(s4, initiator_id@, joined@, now_ms, expiry_after(now_ms, ttl));
            lemma_append_bounded(s4, initiator_id@, joined@, now_ms, expiry_after(now_ms, ttl));
        }
        Ok((ConnectionJoinResponse { mailbox_id: responder_id, expires_at_epoch_ms: expires }, initiator_id, joined))
    }
}

impl RendezvousService {
    /// send at time `now_ms`: appends the ciphertext to the peer's list.
    /// Hands back the peer's mailbox id and the entry appended.
    pub fn send_message(&mut self, mailbox_id: String, ciphertext_b64: String, now_ms: u128) -> (r: Result<
        (String, MailboxMessageStored),
        RendezvousError,
    >)
        requires
            old(self).wf(),
        ensures
            final(self).wf(),
            final(self).ttl() == old(self).ttl(),
            final(self)@ == send_spec(old(self)@, old(self).ttl(), mailbox_id@, ciphertext_b64@, now_ms).0,
            match r {
                Ok((peer, msg)) => send_spec(
                    old(self)@,
                    old(self).ttl(),
                    mailbox_id@,
                    ciphertext_b64@,
                    now_ms,
                ).1 == Ok::<(Seq<char>, MessageView), RendezvousError>((peer@, msg@)),
                Err(e) => send_spec(
                    old(self)@,
                    old(self).ttl(),
                    mailbox_id@,
                    ciphertext_b64@,
                    now_ms,
                ).1 == Err::<(Seq<char>, MessageView), RendezvousError>(e),
            },
    {
        let ttl = self.mailbox_ttl_secs;
        let meta = self.store.get_meta(&mailbox_id, now_ms);
        let peer = match check_sendable(&meta, now_ms) {
            Ok(p) => p,
            Err(e) => {
                return Err(e);
            },
        };
        let len = self.store.list_len(&peer, now_ms);
        let seq = len as u64;
        let msg = outgoing_message(mailbox_id, ciphertext_b64, seq, now_ms);
        let ghost s0 = self@;
        self.store.append(peer.clone(), msg.copy(), ttl, now_ms);
        proof {
            lemma_append_dense(s0, peer@, msg@, now_ms, expiry_after(now_ms, ttl));
            lemma_append_bounded(s0, peer@, msg@, now_ms, expiry_after(now_ms, ttl));
        }
        Ok((peer, msg))
    }

    /// recv at time `now_ms`: the mailbox's whole list, oldest first; each
    /// message's sequence number is its position.
    pub fn recv_messages(&self, mailbox_id: &String, now_ms: u128) -> (r: Result<
        MailboxRecvResponse,
        RendezvousError,
    >)
        requires
            self.wf(),
        ensures
            match r {
                Ok(resp) => {
                    &&& recv_spec(self@, mailbox_id@, now_ms) == Ok::<Seq<MessageView>, RendezvousError>(
                        resp.messages@.map_values(|m: MailboxMessage| m@),
                    )
                    &&& resp.last_sequence == last_sequence_of(list_at(self@, mailbox_id@, now_ms))
                    &&& forall|i: int|
                        0 <= i < resp.messages@.len() ==> #[trigger] resp.messages@[i].sequence == i
                },
                Err(e) => recv_spec(self@, mailbox_id@, now_ms) == Err::<Seq<MessageView>, RendezvousError>(e),
            },
    {
        if self.store.get_meta(mailbox_id, now_ms).is_none() {
            return Err(RendezvousError::MailboxNotFound);
        }
        let stored = self.store.read_list(mailbox_id, now_ms);
        let resp = recv_response(stored);
        proof {
            assert forall|i: int| 0 <= i < resp.messages@.len() implies #[trigger] resp.messages@[i].sequence == i by {
                let msgs = resp.messages@.map_values(|m: MailboxMessage| m@);
                assert(msgs[i] == resp.messages@[i]@);
                assert(msgs == list_at(self@, mailbox_id@, now_ms));
                assert(is_live(self@.lists, mailbox_id@, now_ms));
                assert(self@.lists[mailbox_id@].0[i].sequence == i);
            }
        }
        Ok(resp)
    }

    /// Checks at time `now_ms` that a mailbox exists.
    pub fn verify_mailbox(&self, mailbox_id: &String, now_ms: u128) -> (r: Result<(), RendezvousError>)
        requires
            self.wf(),
        ensures
            r is Ok <==> meta_at(self@, mailbox_id@, now_ms) is Some,
            r is Err ==> r == Err::<(), RendezvousError>(RendezvousError::MailboxNotFound),
    {
        if self.store.get_meta(mailbox_id, now_ms).is_none() {
            return Err(RendezvousError::MailboxNotFound);
        }
        Ok(())
    }
}

impl RendezvousService {
    /// init at time `now_ms`: the initiator's mailbox gets a random id, 16
    /// random bytes in lower-case hex; an id already in the store is refused.
    pub fn init_connection(&mut self, rendezvous_id_b64: String, now_ms: u128) -> (r: Result<
        ConnectionInitResponse,
        RendezvousError,
    >)
        requires
            old(self).wf(),
        ensures
            final(self).wf(),
            final(self).ttl() == old(self).ttl(),
            exists|id: Seq<char>|
                #![trigger init_spec(old(self)@, old(self).ttl(), rendezvous_id_b64@, id, now_ms)]
                id.len() == 32 && (exists|b: Seq<u8>| b.len() == 16 && id == hex_lower(b)) && final(self)@ == init_spec(
                    old(self)@,
                    old(self).ttl(),
                    rendezvous_id_b64@,
                    id,
                    now_ms,
                ).0 && match r {
                    Ok(resp) => init_spec(old(self)@, old(self).ttl(), rendezvous_id_b64@, id, now_ms).1
                        == Ok::<(Seq<char>, u128), RendezvousError>((resp.mailbox_id@, resp.expires_at_epoch_ms)),
                    Err(e) => init_spec(old(self)@, old(self).ttl(), rendezvous_id_b64@, id, now_ms).1 == Err::<
                        (Seq<char>, u128),
                        RendezvousError,
                    >(e),
                },
    {
        let mailbox_id = gen_mailbox_id();
        self.init_connection_with(rendezvous_id_b64, mailbox_id, now_ms)
    }

    /// join at time `now_ms`: the responder's mailbox gets a random id, 16
    /// random bytes in lower-case hex; an id already in the store is refused.
    pub fn join_connection(&mut self, token_b64: String, now_ms: u128) -> (r: Result<
        (ConnectionJoinResponse, String, MailboxMessageStored),
        RendezvousError,
    >)
        requires
            old(self).wf(),
        ensures
            final(self).wf(),
            final(self).ttl() == old(self).ttl(),
            exists|rid: Seq<char>|
                #![trigger join_spec(old(self)@, old(self).ttl(), token_b64@, rid, now_ms)]
                rid.len() == 32 && (exists|b: Seq<u8>| b.len() == 16 && rid == hex_lower(b)) && final(self)@ == join_spec(old(self)@, old(self).ttl(), token_b64@, rid, now_ms).0
                    && match r {
                    Ok((resp, initiator, joined)) => join_spec(
                        old(self)@,
                        old(self).ttl(),
                        token_b64@,
                        rid,
                        now_ms,
                    ).1 == Ok::<JoinOutcome, RendezvousError>(
                        JoinOutcome {
                            responder: resp.mailbox_id@,
                            expires_at_epoch_ms: resp.expires_at_epoch_ms,
                            initiator: initiator@,
                            joined: joined@,
                        },
                    ),
                    Err(e) => join_spec(old(self)@, old(self).ttl(), token_b64@, rid, now_ms).1 == Err::<
                        JoinOutcome,
                        RendezvousError,
                    >(e),
                },
    {
        let responder_id = gen_mailbox_id();
        self.join_connection_with(token_b64, responder_id, now_ms)
    }
}

/// Appending a message numbered by the list's current length keeps every
/// list dense.
/// An append to a list that still had room keeps every list in bounds.
proof fn lemma_append_bounded(s: StoreModel, id: Seq<char>, m: MessageView, now: u128, exp: u128)
    requires
        lists_bounded(s),
        list_at(s, id, now).len() + 1 <= usize::MAX,
    ensures
        lists_bounded(store_with_appended(s, id, m, now, exp)),
{
    let s2 = store_with_appended(s, id, m, now, exp);
    assert forall|k: Seq<char>| #[trigger] s2.lists.contains_key(k) implies s2.lists[k].0.len() <= usize::MAX by {
        if k != id {
            assert(s.lists.contains_key(k));
        }
    }
}

proof fn lemma_append_dense(s: StoreModel, id: Seq<char>, m: MessageView, now: u128, exp: u128)
    requires
        lists_dense(s),
        m.sequence == list_at(s, id, now).len(),
    ensures
        lists_dense(store_with_appended(s, id, m, now, exp)),
{
    let s2 = store_with_appended(s, id, m, now, exp);
    assert forall|k: Seq<char>, i: int|
        #[trigger] s2.lists.contains_key(k) && 0 <= i < s2.lists[k].0.len() implies #[trigger] s2.lists[k].0[i].sequence
        == i by {
        if k == id {
            if i < list_at(s, id, now).len() {
                assert(s.lists.contains_key(k));
            }
        } else {
            assert(s.lists.contains_key(k));
        }
    }
}

} // verus!

verus! {

// ---------------------------------------------------------------------
// Laws of the protocol
// ---------------------------------------------------------------------

/// A successful join links the pair: the initiator's peer is the responder,
/// the responder's peer is the initiator, and both share one expiry, the
/// one that the join reports.
pub proof fn lemma_join_links_pair(s: StoreModel, ttl: u64, token: Seq<char>, rid: Seq<char>, now: u128)
    requires
        service_inv(s),
        join_spec(s, ttl, token, rid, now).1 is Ok,
    ensures
        ({
            let (post, out) = join_spec(s, ttl, token, rid, now);
            let o = out->Ok_0;
            let a = post.metas[o.initiator].0;
            let b = post.metas[o.responder].0;
            &&& post.metas.contains_key(o.initiator)
            &&& post.metas.contains_key(o.responder)
            &&& a.mailbox_id == o.initiator
            &&& b.mailbox_id == o.responder
            &&& a.peer_mailbox_id == Some(b.mailbox_id)
            &&& b.peer_mailbox_id == Some(a.mailbox_id)
            &&& a.expires_at_epoch_ms == b.expires_at_epoch_ms
            &&& o.expires_at_epoch_ms == b.expires_at_epoch_ms
            &&& o.responder != o.initiator
            &&& !s.metas.contains_key(o.responder)
        }),
{
    let s1 = store_without_token(s, token);
    let iid = token_at(s, token, now)->Some_0;
    assert(s1.metas.contains_key(iid));
}

/// Once a join has read a token, whatever its outcome, a later join with
/// the same token fails as invalid.
pub proof fn lemma_token_single_use(
    s: StoreModel,
    ttl: u64,
    token: Seq<char>,
    rid: Seq<char>,
    now: u128,
    rid2: Seq<char>,
    now2: u128,
)
    ensures
        !join_spec(s, ttl, token, rid, now).0.tokens.contains_key(token),
        join_spec(join_spec(s, ttl, token, rid, now).0, ttl, token, rid2, now2).1 == Err::<
            JoinOutcome,
            RendezvousError,
        >(RendezvousError::InvalidToken),
{
}

/// An unmapped token stays unmapped through sends, joins, and inits with
/// other tokens; only an init with the token itself maps it again. A join
/// with an unmapped token fails as invalid.
pub proof fn lemma_unmapped_token_stays_unmapped(
    s: StoreModel,
    ttl: u64,
    token: Seq<char>,
    other: Seq<char>,
    id: Seq<char>,
    rid: Seq<char>,
    ciphertext: Seq<char>,
    now: u128,
)
    requires
        !s.tokens.contains_key(token),
        other != token,
    ensures
        !init_spec(s, ttl, other, id, now).0.tokens.contains_key(token),
        !join_spec(s, ttl, other, rid, now).0.tokens.contains_key(token),
        !join_spec(s, ttl, token, rid, now).0.tokens.contains_key(token),
        !send_spec(s, ttl, id, ciphertext, now).0.tokens.contains_key(token),
        join_spec(s, ttl, token, rid, now).1 == Err::<JoinOutcome, RendezvousError>(
            RendezvousError::InvalidToken,
        ),
{
}

/// A second init with the same token and a new mailbox id, before the
/// first mapping expires, fails with a conflict.
pub proof fn lemma_second_init_conflicts(
    s: StoreModel,
    ttl: u64,
    token: Seq<char>,
    id1: Seq<char>,
    now1: u128,
    id2: Seq<char>,
    now2: u128,
)
    requires
        init_spec(s, ttl, token, id1, now1).1 is Ok,
        now2 < expiry_after(now1, rendezvous_ttl(ttl)),
        id2 != id1,
        !s.metas.contains_key(id2),
    ensures
        init_spec(init_spec(s, ttl, token, id1, now1).0, ttl, token, id2, now2).1 == Err::<
            (Seq<char>, u128),
            RendezvousError,
        >(RendezvousError::TokenConflict),
{
}

/// Until a join links it, a mailbox that init created refuses sends with
/// no peer, for as long as it lives.
pub proof fn lemma_send_before_join(
    s: StoreModel,
    ttl: u64,
    token: Seq<char>,
    id: Seq<char>,
    now1: u128,
    ciphertext: Seq<char>,
    now2: u128,
)
    requires
        init_spec(s, ttl, token, id, now1).1 is Ok,
        now2 < expiry_after(now1, ttl),
    ensures
        send_spec(init_spec(s, ttl, token, id, now1).0, ttl, id, ciphertext, now2).1 == Err::<
            (Seq<char>, MessageView),
            RendezvousError,
        >(RendezvousError::NoPeerConnected),
{
}

/// From a linked mailbox's expiry on, a send fails and changes nothing: gone
/// while the metadata is still stored, not found once it has expired; and
/// once the metadata has expired, a recv fails as not found.
pub proof fn lemma_expired_mailbox(s: StoreModel, ttl: u64, id: Seq<char>, ciphertext: Seq<char>, now: u128)
    requires
        s.metas.contains_key(id),
        s.metas[id].0.peer_mailbox_id is Some,
        now >= s.metas[id].0.expires_at_epoch_ms,
    ensures
        send_spec(s, ttl, id, ciphertext, now).0 == s,
        is_live(s.metas, id, now) ==> send_spec(s, ttl, id, ciphertext, now).1 == Err::<
            (Seq<char>, MessageView),
            RendezvousError,
        >(RendezvousError::SessionExpired),
        !is_live(s.metas, id, now) ==> send_spec(s, ttl, id, ciphertext, now).1 == Err::<
            (Seq<char>, MessageView),
            RendezvousError,
        >(RendezvousError::MailboxNotFound),
        !is_live(s.metas, id, now) ==> recv_spec(s, id, now) == Err::<Seq<MessageView>, RendezvousError>(
            RendezvousError::MailboxNotFound,
        ),
{
}

/// Two recvs with no write in between return the same list, provided
/// neither the mailbox nor its list has expired by the second.
pub proof fn lemma_recv_idempotent(s: StoreModel, id: Seq<char>, now1: u128, now2: u128)
    requires
        now1 <= now2,
        meta_at(s, id, now2) is Some,
        !s.lists.contains_key(id) || now2 < s.lists[id].1,
    ensures
        recv_spec(s, id, now1) == recv_spec(s, id, now2),
{
}

} // verus!

verus! {

/// Every list keeps its sequence numbers equal to the positions 0, 1, ...,
/// N-1 through init, join and send, each append going to the end, and
/// every metadata record stays under its own id.
pub proof fn lemma_lists_stay_dense(
    s: StoreModel,
    ttl: u64,
    token: Seq<char>,
    id: Seq<char>,
    rid: Seq<char>,
    ciphertext: Seq<char>,
    now: u128,
)
    requires
        service_inv(s),
    ensures
        metas_keyed(init_spec(s, ttl, token, id, now).0),
        lists_dense(init_spec(s, ttl, token, id, now).0),
        metas_keyed(join_spec(s, ttl, token, rid, now).0),
        lists_dense(join_spec(s, ttl, token, rid, now).0),
        metas_keyed(send_spec(s, ttl, id, ciphertext, now).0),
        lists_dense(send_spec(s, ttl, id, ciphertext, now).0),
{
    // init
    if !s.metas.contains_key(id) {
        let st = fresh_state(id, now, ttl);
        let i1 = store_without_list(store_with_meta(s, st, expiry_after(now, ttl)), id);
        assert(lists_dense(i1)) by {
            assert forall|k: Seq<char>, i: int|
                #[trigger] i1.lists.contains_key(k) && 0 <= i < i1.lists[k].0.len() implies #[trigger] i1.lists[k].0[i].sequence
                == i by {
                assert(s.lists.contains_key(k));
            }
        }
    }
    // send
    match sendable(meta_at(s, id, now), now) {
        Err(_) => {},
        Ok(peer) => {
            let n = list_at(s, peer, now).len();
            if is_live(s.lists, peer, now) {
                assert(s.lists.contains_key(peer));
            }
            assert(n as u64 == n);
            let msg = message_at(id, ciphertext, n as u64, now);
            lemma_append_dense(s, peer, msg, now, expiry_after(now, ttl));
        },
    }
    // join
    let s1 = store_without_token(s, token);
    match token_at(s, token, now) {
        None => {},
        Some(iid) => match joinable(meta_at(s1, iid, now)) {
            Err(_) => {},
            Ok(ist) => if !s1.metas.contains_key(rid) {
                let s2 = store_with_meta(s1, linked_initiator(ist, rid), expiry_after(now, ttl));
                let s3 = store_with_meta(s2, responder_state(ist, rid), expiry_after(now, ttl));
                let s4 = store_without_list(s3, rid);
                assert(lists_dense(s4)) by {
                    assert forall|k: Seq<char>, i: int|
                        #[trigger] s4.lists.contains_key(k) && 0 <= i < s4.lists[k].0.len() implies #[trigger] s4.lists[k].0[i].sequence
                        == i by {
                        assert(s.lists.contains_key(k));
                    }
                }
                assert(metas_keyed(s4)) by {
                    assert forall|k: Seq<char>| #[trigger] s4.metas.contains_key(k) implies s4.metas[k].0.mailbox_id
                        == k by {
                        if k != rid && k != ist.mailbox_id {
                            assert(s.metas.contains_key(k));
                        }
                    }
                }
                let n = list_at(s4, iid, now).len();
                if is_live(s4.lists, iid, now) {
                    assert(s.lists.contains_key(iid));
                }
                assert(n as u64 == n);
                let msg = message_at(rid, Seq::empty(), n as u64, now);
                lemma_append_dense(s4, iid, msg, now, expiry_after(now, ttl));
            },
        },
    }
}

} // verus!

verus! {

/// A join with the token of a successful init, before the token expires
/// and with a responder id new to the store, succeeds: it reaches the init's mailbox and reports the init's expiry.
pub proof fn lemma_init_then_join(
    s: StoreModel,
    ttl: u64,
    token: Seq<char>,
    id: Seq<char>,
    now1: u128,
    rid: Seq<char>,
    now2: u128,
)
    requires
        init_spec(s, ttl, token, id, now1).1 is Ok,
        now2 < expiry_after(now1, rendezvous_ttl(ttl)),
        rid != id,
        !s.metas.contains_key(rid),
    ensures
        ({
            let (s1, init) = init_spec(s, ttl, token, id, now1);
            let out = join_spec(s1, ttl, token, rid, now2).1;
            &&& out is Ok
            &&& out->Ok_0.initiator == id
            &&& out->Ok_0.responder == rid
            &&& out->Ok_0.expires_at_epoch_ms == init->Ok_0.1
        }),
{
    assert(expiry_after(now1, rendezvous_ttl(ttl)) <= expiry_after(now1, ttl));
}

} // verus!

verus! {

// ---------------------------------------------------------------------
// Numbering by position, for stores whose append reports the new length
// ---------------------------------------------------------------------

/// The sequence number of an entry that an append placed last, given the
/// list length that the append reported; no list is empty after an append.
pub fn appended_sequence(new_len: u64) -> (r: Result<u64, RendezvousError>)
    ensures
        new_len == 0 ==> r == Err::<u64, RendezvousError>(RendezvousError::Store),
        new_len > 0 ==> r == Ok::<u64, RendezvousError>((new_len - 1) as u64),
{
    if new_len == 0 {
        Err(RendezvousError::Store)
    } else {
        Ok(new_len - 1)
    }
}

/// Numbers a list read back in order: each entry's sequence number becomes
/// its position, everything else is kept.
pub fn number_in_order(stored: Vec<MailboxMessageStored>) -> (r: Vec<MailboxMessageStored>)
    ensures
        r@.len() == stored@.len(),
        forall|i: int|
            0 <= i < r@.len() ==> #[trigger] r@[i]@ == (MessageView { sequence: i as u64, ..stored@[i]@ }),
        forall|i: int| 0 <= i < r@.len() ==> #[trigger] r@[i].sequence == i,
{
    let mut out: Vec<MailboxMessageStored> = Vec::new();
    let mut i: usize = 0;
    while i < stored.len()
        invariant
            i <= stored@.len(),
            out@.len() == i,
            forall|j: int|
                0 <= j < i ==> #[trigger] out@[j]@ == (MessageView { sequence: j as u64, ..stored@[j]@ }),
            forall|j: int| 0 <= j < i ==> #[trigger] out@[j].sequence == j,
        decreases stored@.len() - i,
    {
        let s = &stored[i];
        out.push(
            MailboxMessageStored {
                from_mailbox_id: s.from_mailbox_id.clone(),
                ciphertext_b64: s.ciphertext_b64.clone(),
                sequence: i as u64,
                timestamp_epoch_ms: s.timestamp_epoch_ms,
            },
        );
        i = i + 1;
    }
    out
}

} // verus!
