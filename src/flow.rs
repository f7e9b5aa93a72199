//! The rendezvous operations as step functions over any store whose calls
//! wait (a remote store): each step takes the store's reply to the last
//! action and gives the next action, or the result. A driver only runs the
//! actions; every decision and the order of the writes are made here.
use vstd::prelude::*;
use crate::model::{
    ConnectionInitResponse, ConnectionJoinResponse, MailboxMessageStored, MailboxRecvResponse, MailboxState,
    MessageView, RendezvousError,
};
use crate::rendezvous::{
    appended_sequence, check_joinable, check_sendable, fresh_state, join_message, joinable,
    link_pair, linked_initiator, message_at, new_mailbox_state, number_in_order, outgoing_message, recv_response,
    responder_state, sendable,
};
use crate::model::MailboxStateView;

verus! {

/// What a driver asks of the store.
pub enum StoreAction {
    /// Read a mailbox's live metadata; answered by `Meta`.
    ReadMeta { mailbox_id: String },
    /// Write a mailbox's metadata with the mailbox lifetime; answered by `Written`.
    WriteMeta { state: MailboxState },
    /// Delete a mailbox's list; answered by `Written`.
    ClearList { mailbox_id: String },
    /// Map a token to a mailbox unless it is mapped already, with the
    /// rendezvous lifetime; answered by `Created`.
    CreateRendezvous { token: String, mailbox_id: String },
    /// Read and delete a token's mapping in one step; answered by `Taken`.
    TakeRendezvous { token: String },
    /// Append an entry (its sequence number is its position) and reset the
    /// list's lifetime; answered by `Appended` with the new length.
    Append { mailbox_id: String, entry: MailboxMessageStored },
    /// Read a mailbox's whole list, in order; answered by `List`.
    ReadList { mailbox_id: String },
}

/// What the store answered.
pub enum StoreReply {
    Meta { state: Option<MailboxState> },
    Written,
    Created { created: bool },
    Taken { mailbox_id: Option<String> },
    Appended { new_len: u64 },
    List { entries: Vec<MailboxMessageStored> },
}

/// The next thing to do: run an action, or hand back the result.
pub enum Next<T> {
    Run(StoreAction),
    Done(Result<T, RendezvousError>),
}

pub open spec fn opt_state_view(o: Option<MailboxState>) -> Option<MailboxStateView> {
    match o {
        Some(s) => Some(s@),
        None => None,
    }
}

// ---------------------------------------------------------------------
// init
// ---------------------------------------------------------------------

#[derive(PartialEq, Eq, Structural, Clone, Copy)]
pub enum InitStage {
    CheckingId,
    WritingMeta,
    ClearingList,
    Mapping,
    Finished,
}

/// An init in progress: a fresh id is checked, the mailbox written and its
/// list emptied, then the token is mapped to it unless already mapped.
pub struct InitFlow {
    pub token: String,
    pub mailbox_id: String,
    pub now_ms: u128,
    pub ttl_secs: u64,
    pub stage: InitStage,
}

impl InitFlow {
    pub fn start(token: String, mailbox_id: String, now_ms: u128, ttl_secs: u64) -> (r: (InitFlow, Next<ConnectionInitResponse>))
        ensures
            r.0.token == token && r.0.mailbox_id == mailbox_id && r.0.now_ms == now_ms && r.0.ttl_secs == ttl_secs,
            r.0.stage == InitStage::CheckingId,
            r.1 is Run && r.1->Run_0 is ReadMeta && r.1->Run_0->ReadMeta_mailbox_id == mailbox_id,
    {
        let id = mailbox_id.clone();
        (InitFlow { token, mailbox_id, now_ms, ttl_secs, stage: InitStage::CheckingId }, Next::Run(StoreAction::ReadMeta { mailbox_id: id }))
    }

    pub fn step(&mut self, reply: StoreReply) -> (r: Next<ConnectionInitResponse>)
        ensures
            final(self).token == old(self).token,
            final(self).mailbox_id == old(self).mailbox_id,
            final(self).now_ms == old(self).now_ms,
            final(self).ttl_secs == old(self).ttl_secs,
            match (old(self).stage, reply) {
                (InitStage::CheckingId, StoreReply::Meta { state: Some(_) }) => r == Next::<ConnectionInitResponse>::Done(
                    Err(RendezvousError::MailboxIdCollision),
                ) && final(self).stage == InitStage::Finished,
                (InitStage::CheckingId, StoreReply::Meta { state: None }) => {
                    &&& final(self).stage == InitStage::WritingMeta
                    &&& r is Run && r->Run_0 is WriteMeta
                    &&& r->Run_0->WriteMeta_state@ == fresh_state(old(self).mailbox_id@, old(self).now_ms, old(self).ttl_secs)
                },
                (InitStage::WritingMeta, StoreReply::Written) => {
                    &&& final(self).stage == InitStage::ClearingList
                    &&& r is Run && r->Run_0 is ClearList && r->Run_0->ClearList_mailbox_id == old(self).mailbox_id
                },
                (InitStage::ClearingList, StoreReply::Written) => {
                    &&& final(self).stage == InitStage::Mapping
                    &&& r is Run && r->Run_0 is CreateRendezvous
                    &&& r->Run_0->CreateRendezvous_token == old(self).token
                    &&& r->Run_0->CreateRendezvous_mailbox_id == old(self).mailbox_id
                },
                (InitStage::Mapping, StoreReply::Created { created }) => {
                    &&& final(self).stage == InitStage::Finished
                    &&& if created {
                        r is Done && r->Done_0 is Ok && r->Done_0->Ok_0.mailbox_id == old(self).mailbox_id
                            && r->Done_0->Ok_0.expires_at_epoch_ms == fresh_state(
                            old(self).mailbox_id@,
                            old(self).now_ms,
                            old(self).ttl_secs,
                        ).expires_at_epoch_ms
                    } else {
                        r == Next::<ConnectionInitResponse>::Done(Err(RendezvousError::TokenConflict))
                    }
                },
                _ => r == Next::<ConnectionInitResponse>::Done(Err(RendezvousError::Store)) && final(self).stage
                    == InitStage::Finished,
            },
    {
        match (self.stage, reply) {
            (InitStage::CheckingId, StoreReply::Meta { state: Some(_) }) => {
                self.stage = InitStage::Finished;
                Next::Done(Err(RendezvousError::MailboxIdCollision))
            },
            (InitStage::CheckingId, StoreReply::Meta { state: None }) => {
                self.stage = InitStage::WritingMeta;
                let state = new_mailbox_state(self.mailbox_id.clone(), self.now_ms, self.ttl_secs);
                Next::Run(StoreAction::WriteMeta { state })
            },
            (InitStage::WritingMeta, StoreReply::Written) => {
                self.stage = InitStage::ClearingList;
                Next::Run(StoreAction::ClearList { mailbox_id: self.mailbox_id.clone() })
            },
            (InitStage::ClearingList, StoreReply::Written) => {
                self.stage = InitStage::Mapping;
                Next::Run(StoreAction::CreateRendezvous { token: self.token.clone(), mailbox_id: self.mailbox_id.clone() })
            },
            (InitStage::Mapping, StoreReply::Created { created }) => {
                self.stage = InitStage::Finished;
                if created {
                    let state = new_mailbox_state(self.mailbox_id.clone(), self.now_ms, self.ttl_secs);
                    Next::Done(
                        Ok(ConnectionInitResponse { mailbox_id: self.mailbox_id.clone(), expires_at_epoch_ms: state.expires_at_epoch_ms }),
                    )
                } else {
                    Next::Done(Err(RendezvousError::TokenConflict))
                }
            },
            _ => {
                self.stage = InitStage::Finished;
                Next::Done(Err(RendezvousError::Store))
            },
        }
    }
}

} // verus!

verus! {

// ---------------------------------------------------------------------
// join
// ---------------------------------------------------------------------

#[derive(PartialEq, Eq, Structural, Clone, Copy)]
pub enum JoinStage {
    Taking,
    ReadingInitiator,
    CheckingResponderId,
    WritingInitiator,
    WritingResponder,
    ClearingResponderList,
    Appending,
    Finished,
}

/// A join in progress: the token is taken, the initiator checked, the
/// responder id checked, both sides linked, the responder's list emptied,
/// and the "peer joined" entry appended to the initiator's list.
pub struct JoinFlow {
    pub token: String,
    pub responder_id: String,
    pub now_ms: u128,
    pub stage: JoinStage,
    /// The initiator's mailbox, once the token has been read.
    pub initiator_id: Option<String>,
    /// The initiator's metadata as read, once checked.
    pub initiator: Option<MailboxState>,
}

pub open spec fn join_kept(a: JoinFlow, b: JoinFlow) -> bool {
    a.token == b.token && a.responder_id == b.responder_id && a.now_ms == b.now_ms
}

impl JoinFlow {
    /// What each stage has already learnt: the initiator's id once the
    /// token is read, its metadata once it is checked.
    pub open spec fn wf(&self) -> bool {
        match self.stage {
            JoinStage::Taking => self.initiator_id is None && self.initiator is None,
            JoinStage::ReadingInitiator => self.initiator_id is Some,
            JoinStage::Finished => true,
            _ => self.initiator_id is Some && self.initiator is Some,
        }
    }

    pub fn start(token: String, responder_id: String, now_ms: u128) -> (r: (JoinFlow, Next<(ConnectionJoinResponse, String, MailboxMessageStored)>))
        ensures
            r.0.token == token && r.0.responder_id == responder_id && r.0.now_ms == now_ms,
            r.0.stage == JoinStage::Taking,
            r.0.initiator_id is None && r.0.initiator is None,
            r.0.wf(),
            r.1 is Run && r.1->Run_0 is TakeRendezvous && r.1->Run_0->TakeRendezvous_token == token,
    {
        let t = token.clone();
        (
            JoinFlow { token, responder_id, now_ms, stage: JoinStage::Taking, initiator_id: None, initiator: None },
            Next::Run(StoreAction::TakeRendezvous { token: t }),
        )
    }

    pub fn step(&mut self, reply: StoreReply) -> (r: Next<(ConnectionJoinResponse, String, MailboxMessageStored)>)
        requires
            old(self).wf(),
        ensures
            final(self).wf(),
            join_kept(*final(self), *old(self)),
            match (old(self).stage, reply) {
                (JoinStage::Taking, StoreReply::Taken { mailbox_id: None }) => r == Next::<
                    (ConnectionJoinResponse, String, MailboxMessageStored),
                >::Done(Err(RendezvousError::InvalidToken)) && final(self).stage == JoinStage::Finished,
                (JoinStage::Taking, StoreReply::Taken { mailbox_id: Some(iid) }) => {
                    &&& final(self).stage == JoinStage::ReadingInitiator
                    &&& final(self).initiator_id == Some(iid)
                    &&& r is Run && r->Run_0 is ReadMeta && r->Run_0->ReadMeta_mailbox_id == iid
                },
                (JoinStage::ReadingInitiator, StoreReply::Meta { state }) => match joinable(opt_state_view(state)) {
                    Err(e) => r == Next::<(ConnectionJoinResponse, String, MailboxMessageStored)>::Done(Err(e))
                        && final(self).stage == JoinStage::Finished,
                    Ok(ist) => {
                        &&& final(self).stage == JoinStage::CheckingResponderId
                        &&& final(self).initiator_id == old(self).initiator_id
                        &&& final(self).initiator is Some && final(self).initiator->Some_0@ == ist
                        &&& r is Run && r->Run_0 is ReadMeta && r->Run_0->ReadMeta_mailbox_id == old(self).responder_id
                    },
                },
                (JoinStage::CheckingResponderId, StoreReply::Meta { state: Some(_) }) => r == Next::<
                    (ConnectionJoinResponse, String, MailboxMessageStored),
                >::Done(Err(RendezvousError::MailboxIdCollision)) && final(self).stage == JoinStage::Finished,
                (JoinStage::CheckingResponderId, StoreReply::Meta { state: None }) => {
                    &&& final(self).stage == JoinStage::WritingInitiator
                    &&& final(self).initiator == old(self).initiator
                    &&& final(self).initiator_id == old(self).initiator_id
                    &&& r is Run && r->Run_0 is WriteMeta
                    &&& r->Run_0->WriteMeta_state@ == linked_initiator(old(self).initiator->Some_0@, old(self).responder_id@)
                },
                (JoinStage::WritingInitiator, StoreReply::Written) => {
                    &&& final(self).stage == JoinStage::WritingResponder
                    &&& final(self).initiator_id == old(self).initiator_id
                    &&& final(self).initiator == old(self).initiator
                    &&& r is Run && r->Run_0 is WriteMeta
                    &&& r->Run_0->WriteMeta_state@ == responder_state(old(self).initiator->Some_0@, old(self).responder_id@)
                },
                (JoinStage::WritingResponder, StoreReply::Written) => {
                    &&& final(self).stage == JoinStage::ClearingResponderList
                    &&& final(self).initiator_id == old(self).initiator_id
                    &&& final(self).initiator == old(self).initiator
                    &&& r is Run && r->Run_0 is ClearList && r->Run_0->ClearList_mailbox_id == old(self).responder_id
                },
                (JoinStage::ClearingResponderList, StoreReply::Written) => {
                    &&& final(self).stage == JoinStage::Appending
                    &&& final(self).initiator_id == old(self).initiator_id
                    &&& final(self).initiator == old(self).initiator
                    &&& r is Run && r->Run_0 is Append
                    &&& r->Run_0->Append_mailbox_id == old(self).initiator_id->Some_0
                    &&& r->Run_0->Append_entry@ == message_at(old(self).responder_id@, Seq::empty(), 0, old(self).now_ms)
                },
                (JoinStage::Appending, StoreReply::Appended { new_len }) => {
                    &&& final(self).stage == JoinStage::Finished
                    &&& if new_len == 0 {
                        r == Next::<(ConnectionJoinResponse, String, MailboxMessageStored)>::Done(
                            Err(RendezvousError::Store),
                        )
                    } else {
                        &&& r is Done && r->Done_0 is Ok
                        &&& r->Done_0->Ok_0.0.mailbox_id == old(self).responder_id
                        &&& r->Done_0->Ok_0.0.expires_at_epoch_ms == old(self).initiator->Some_0.expires_at_epoch_ms
                        &&& r->Done_0->Ok_0.1 == old(self).initiator_id->Some_0
                        &&& r->Done_0->Ok_0.2@ == message_at(
                            old(self).responder_id@,
                            Seq::empty(),
                            (new_len - 1) as u64,
                            old(self).now_ms,
                        )
                    }
                },
                _ => r == Next::<(ConnectionJoinResponse, String, MailboxMessageStored)>::Done(
                    Err(RendezvousError::Store),
                ) && final(self).stage == JoinStage::Finished,
            },
    {
        match (self.stage, reply) {
            (JoinStage::Taking, StoreReply::Taken { mailbox_id: None }) => {
                self.stage = JoinStage::Finished;
                Next::Done(Err(RendezvousError::InvalidToken))
            },
            (JoinStage::Taking, StoreReply::Taken { mailbox_id: Some(iid) }) => {
                self.stage = JoinStage::ReadingInitiator;
                let read = iid.clone();
                self.initiator_id = Some(iid);
                Next::Run(StoreAction::ReadMeta { mailbox_id: read })
            },
            (JoinStage::ReadingInitiator, StoreReply::Meta { state }) => match check_joinable(state) {
                Err(e) => {
                    self.stage = JoinStage::Finished;
                    Next::Done(Err(e))
                },
                Ok(ist) => {
                    self.stage = JoinStage::CheckingResponderId;
                    self.initiator = Some(ist);
                    Next::Run(StoreAction::ReadMeta { mailbox_id: self.responder_id.clone() })
                },
            },
            (JoinStage::CheckingResponderId, StoreReply::Meta { state: Some(_) }) => {
                self.stage = JoinStage::Finished;
                Next::Done(Err(RendezvousError::MailboxIdCollision))
            },
            (JoinStage::CheckingResponderId, StoreReply::Meta { state: None }) => match &self.initiator {
                Some(ist) => {
                    let (linked, _) = link_pair(ist.copy(), &self.responder_id);
                    self.stage = JoinStage::WritingInitiator;
                    Next::Run(StoreAction::WriteMeta { state: linked })
                },
                None => {
                    self.stage = JoinStage::Finished;
                    Next::Done(Err(RendezvousError::Store))
                },
            },
            (JoinStage::WritingInitiator, StoreReply::Written) => match &self.initiator {
                Some(ist) => {
                    let (_, responder) = link_pair(ist.copy(), &self.responder_id);
                    self.stage = JoinStage::WritingResponder;
                    Next::Run(StoreAction::WriteMeta { state: responder })
                },
                None => {
                    self.stage = JoinStage::Finished;
                    Next::Done(Err(RendezvousError::Store))
                },
            },
            (JoinStage::WritingResponder, StoreReply::Written) => {
                self.stage = JoinStage::ClearingResponderList;
                Next::Run(StoreAction::ClearList { mailbox_id: self.responder_id.clone() })
            },
            (JoinStage::ClearingResponderList, StoreReply::Written) => match &self.initiator_id {
                Some(iid) => {
                    let entry = join_message(&self.responder_id, 0, self.now_ms);
                    self.stage = JoinStage::Appending;
                    Next::Run(StoreAction::Append { mailbox_id: iid.clone(), entry })
                },
                None => {
                    self.stage = JoinStage::Finished;
                    Next::Done(Err(RendezvousError::Store))
                },
            },
            (JoinStage::Appending, StoreReply::Appended { new_len }) => {
                self.stage = JoinStage::Finished;
                match (&self.initiator_id, &self.initiator) {
                    (Some(iid), Some(ist)) => match appended_sequence(new_len) {
                        Err(e) => Next::Done(Err(e)),
                        Ok(seq) => {
                            let joined = join_message(&self.responder_id, seq, self.now_ms);
                            let resp = ConnectionJoinResponse {
                                mailbox_id: self.responder_id.clone(),
                                expires_at_epoch_ms: ist.expires_at_epoch_ms,
                            };
                            Next::Done(Ok((resp, iid.clone(), joined)))
                        },
                    },
                    _ => Next::Done(Err(RendezvousError::Store)),
                }
            },
            _ => {
                self.stage = JoinStage::Finished;
                Next::Done(Err(RendezvousError::Store))
            },
        }
    }
}

} // verus!

verus! {

// ---------------------------------------------------------------------
// send, recv and the mailbox check
// ---------------------------------------------------------------------

#[derive(PartialEq, Eq, Structural, Clone, Copy)]
pub enum SendStage {
    ReadingSender,
    Appending,
    Finished,
}

/// A send in progress: the sender's metadata is checked, then the entry is
/// appended to the peer's list.
pub struct SendFlow {
    pub mailbox_id: String,
    pub ciphertext_b64: String,
    pub now_ms: u128,
    pub stage: SendStage,
    /// The peer's mailbox, once the sender is checked.
    pub peer: Option<String>,
}

impl SendFlow {
    pub open spec fn wf(&self) -> bool {
        self.stage == SendStage::Appending ==> self.peer is Some
    }

    pub fn start(mailbox_id: String, ciphertext_b64: String, now_ms: u128) -> (r: (SendFlow, Next<(String, MailboxMessageStored)>))
        ensures
            r.0.mailbox_id == mailbox_id && r.0.ciphertext_b64 == ciphertext_b64 && r.0.now_ms == now_ms,
            r.0.stage == SendStage::ReadingSender,
            r.0.wf(),
            r.1 is Run && r.1->Run_0 is ReadMeta && r.1->Run_0->ReadMeta_mailbox_id == mailbox_id,
    {
        let id = mailbox_id.clone();
        (
            SendFlow { mailbox_id, ciphertext_b64, now_ms, stage: SendStage::ReadingSender, peer: None },
            Next::Run(StoreAction::ReadMeta { mailbox_id: id }),
        )
    }

    pub fn step(&mut self, reply: StoreReply) -> (r: Next<(String, MailboxMessageStored)>)
        requires
            old(self).wf(),
        ensures
            final(self).wf(),
            final(self).mailbox_id == old(self).mailbox_id,
            final(self).ciphertext_b64 == old(self).ciphertext_b64,
            final(self).now_ms == old(self).now_ms,
            match (old(self).stage, reply) {
                (SendStage::ReadingSender, StoreReply::Meta { state }) => match sendable(
                    opt_state_view(state),
                    old(self).now_ms,
                ) {
                    Err(e) => r == Next::<(String, MailboxMessageStored)>::Done(Err(e)) && final(self).stage
                        == SendStage::Finished,
                    Ok(peer) => {
                        &&& final(self).stage == SendStage::Appending
                        &&& final(self).peer is Some && final(self).peer->Some_0@ == peer
                        &&& r is Run && r->Run_0 is Append && r->Run_0->Append_mailbox_id@ == peer
                        &&& r->Run_0->Append_entry@ == message_at(
                            old(self).mailbox_id@,
                            old(self).ciphertext_b64@,
                            0,
                            old(self).now_ms,
                        )
                    },
                },
                (SendStage::Appending, StoreReply::Appended { new_len }) => {
                    &&& final(self).stage == SendStage::Finished
                    &&& if new_len == 0 {
                        r == Next::<(String, MailboxMessageStored)>::Done(Err(RendezvousError::Store))
                    } else {
                        &&& r is Done && r->Done_0 is Ok
                        &&& r->Done_0->Ok_0.0 == old(self).peer->Some_0
                        &&& r->Done_0->Ok_0.1@ == message_at(
                            old(self).mailbox_id@,
                            old(self).ciphertext_b64@,
                            (new_len - 1) as u64,
                            old(self).now_ms,
                        )
                    }
                },
                _ => r == Next::<(String, MailboxMessageStored)>::Done(Err(RendezvousError::Store))
                    && final(self).stage == SendStage::Finished,
            },
    {
        match (self.stage, reply) {
            (SendStage::ReadingSender, StoreReply::Meta { state }) => match check_sendable(&state, self.now_ms) {
                Err(e) => {
                    self.stage = SendStage::Finished;
                    Next::Done(Err(e))
                },
                Ok(peer) => {
                    let entry = outgoing_message(self.mailbox_id.clone(), self.ciphertext_b64.clone(), 0, self.now_ms);
                    self.stage = SendStage::Appending;
                    let target = peer.clone();
                    self.peer = Some(peer);
                    Next::Run(StoreAction::Append { mailbox_id: target, entry })
                },
            },
            (SendStage::Appending, StoreReply::Appended { new_len }) => {
                self.stage = SendStage::Finished;
                match &self.peer {
                    Some(peer) => match appended_sequence(new_len) {
                        Err(e) => Next::Done(Err(e)),
                        Ok(seq) => {
                            let msg = outgoing_message(self.mailbox_id.clone(), self.ciphertext_b64.clone(), seq, self.now_ms);
                            Next::Done(Ok((peer.clone(), msg)))
                        },
                    },
                    None => Next::Done(Err(RendezvousError::Store)),
                }
            },
            _ => {
                self.stage = SendStage::Finished;
                Next::Done(Err(RendezvousError::Store))
            },
        }
    }
}

#[derive(PartialEq, Eq, Structural, Clone, Copy)]
pub enum RecvStage {
    ReadingMeta,
    ReadingList,
    Finished,
}

/// A recv in progress: the mailbox must exist, then its list is read and
/// numbered by position.
pub struct RecvFlow {
    pub mailbox_id: String,
    pub stage: RecvStage,
}

impl RecvFlow {
    pub fn start(mailbox_id: String) -> (r: (RecvFlow, Next<MailboxRecvResponse>))
        ensures
            r.0.mailbox_id == mailbox_id && r.0.stage == RecvStage::ReadingMeta,
            r.1 is Run && r.1->Run_0 is ReadMeta && r.1->Run_0->ReadMeta_mailbox_id == mailbox_id,
    {
        let id = mailbox_id.clone();
        (RecvFlow { mailbox_id, stage: RecvStage::ReadingMeta }, Next::Run(StoreAction::ReadMeta { mailbox_id: id }))
    }

    pub fn step(&mut self, reply: StoreReply) -> (r: Next<MailboxRecvResponse>)
        ensures
            final(self).mailbox_id == old(self).mailbox_id,
            match (old(self).stage, reply) {
                (RecvStage::ReadingMeta, StoreReply::Meta { state: None }) => r == Next::<MailboxRecvResponse>::Done(
                    Err(RendezvousError::MailboxNotFound),
                ) && final(self).stage == RecvStage::Finished,
                (RecvStage::ReadingMeta, StoreReply::Meta { state: Some(_) }) => {
                    &&& final(self).stage == RecvStage::ReadingList
                    &&& r is Run && r->Run_0 is ReadList && r->Run_0->ReadList_mailbox_id == old(self).mailbox_id
                },
                (RecvStage::ReadingList, StoreReply::List { entries }) => {
                    &&& final(self).stage == RecvStage::Finished
                    &&& r is Done && r->Done_0 is Ok
                    &&& r->Done_0->Ok_0.messages@.len() == entries@.len()
                    &&& forall|i: int|
                        0 <= i < entries@.len() ==> #[trigger] r->Done_0->Ok_0.messages@[i]@ == (MessageView {
                            sequence: i as u64,
                            ..entries@[i]@
                        })
                    &&& r->Done_0->Ok_0.last_sequence == if entries@.len() == 0 {
                        0
                    } else {
                        (entries@.len() - 1) as u64
                    }
                },
                _ => r == Next::<MailboxRecvResponse>::Done(Err(RendezvousError::Store)) && final(self).stage
                    == RecvStage::Finished,
            },
    {
        match (self.stage, reply) {
            (RecvStage::ReadingMeta, StoreReply::Meta { state: None }) => {
                self.stage = RecvStage::Finished;
                Next::Done(Err(RendezvousError::MailboxNotFound))
            },
            (RecvStage::ReadingMeta, StoreReply::Meta { state: Some(_) }) => {
                self.stage = RecvStage::ReadingList;
                Next::Run(StoreAction::ReadList { mailbox_id: self.mailbox_id.clone() })
            },
            (RecvStage::ReadingList, StoreReply::List { entries }) => {
                self.stage = RecvStage::Finished;
                let numbered = number_in_order(entries);
                let resp = recv_response(numbered);
                proof {
                    let msgs = resp.messages@.map_values(|m: crate::model::MailboxMessage| m@);
                    assert forall|i: int| 0 <= i < resp.messages@.len() implies #[trigger] resp.messages@[i]@
                        == msgs[i] by {}
                }
                Next::Done(Ok(resp))
            },
            _ => {
                self.stage = RecvStage::Finished;
                Next::Done(Err(RendezvousError::Store))
            },
        }
    }
}

/// Whether a mailbox exists, from its metadata as read: the check made
/// before a push subscription is upgraded.
pub fn mailbox_exists(meta: &Option<MailboxState>) -> (r: Result<(), RendezvousError>)
    ensures
        meta is Some <==> r is Ok,
        r is Err ==> r == Err::<(), RendezvousError>(RendezvousError::MailboxNotFound),
{
    match meta {
        Some(_) => Ok(()),
        None => Err(RendezvousError::MailboxNotFound),
    }
}

} // verus!
