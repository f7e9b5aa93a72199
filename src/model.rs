//! The records that the rendezvous protocol stores and returns, and its errors.
use vstd::prelude::*;

verus! {

/// Metadata of one side of a mailbox pair.
#[derive(Debug, Clone, PartialEq, Eq)]
pub struct MailboxState {
    pub mailbox_id: String,
    /// Absent until the pair is joined; set exactly once.
    pub peer_mailbox_id: Option<String>,
    pub created_at_epoch_ms: u128,
    pub expires_at_epoch_ms: u128,
}

/// The mathematical value of a [`MailboxState`].
pub struct MailboxStateView {
    pub mailbox_id: Seq<char>,
    pub peer_mailbox_id: Option<Seq<char>>,
    pub created_at_epoch_ms: u128,
    pub expires_at_epoch_ms: u128,
}

pub open spec fn opt_view(o: Option<String>) -> Option<Seq<char>> {
    match o {
        Some(s) => Some(s@),
        None => None,
    }
}

impl View for MailboxState {
    type V = MailboxStateView;

    open spec fn view(&self) -> MailboxStateView {
        MailboxStateView {
            mailbox_id: self.mailbox_id@,
            peer_mailbox_id: opt_view(self.peer_mailbox_id),
            created_at_epoch_ms: self.created_at_epoch_ms,
            expires_at_epoch_ms: self.expires_at_epoch_ms,
        }
    }
}

pub fn copy_opt_string(o: &Option<String>) -> (r: Option<String>)
    ensures
        opt_view(r) == opt_view(*o),
{
    match o {
        Some(s) => Some(s.clone()),
        None => None,
    }
}

impl MailboxState {
    /// A field-by-field copy with the same value.
    pub fn copy(&self) -> (r: MailboxState)
        ensures
            r@ == self@,
    {
        MailboxState {
            mailbox_id: self.mailbox_id.clone(),
            peer_mailbox_id: copy_opt_string(&self.peer_mailbox_id),
            created_at_epoch_ms: self.created_at_epoch_ms,
            expires_at_epoch_ms: self.expires_at_epoch_ms,
        }
    }
}

/// One entry of a mailbox's append-only list.
#[derive(Debug, Clone, PartialEq, Eq)]
pub struct MailboxMessageStored {
    pub from_mailbox_id: String,
    /// Opaque payload; empty only for the synthetic "peer joined" entry.
    pub ciphertext_b64: String,
    /// Position of the entry in its recipient's list.
    pub sequence: u64,
    pub timestamp_epoch_ms: u128,
}

/// The mathematical value of a stored or returned message.
pub struct MessageView {
    pub from_mailbox_id: Seq<char>,
    pub ciphertext_b64: Seq<char>,
    pub sequence: u64,
    pub timestamp_epoch_ms: u128,
}

impl View for MailboxMessageStored {
    type V = MessageView;

    open spec fn view(&self) -> MessageView {
        MessageView {
            from_mailbox_id: self.from_mailbox_id@,
            ciphertext_b64: self.ciphertext_b64@,
            sequence: self.sequence,
            timestamp_epoch_ms: self.timestamp_epoch_ms,
        }
    }
}

impl MailboxMessageStored {
    /// A field-by-field copy with the same value.
    pub fn copy(&self) -> (r: MailboxMessageStored)
        ensures
            r@ == self@,
    {
        MailboxMessageStored {
            from_mailbox_id: self.from_mailbox_id.clone(),
            ciphertext_b64: self.ciphertext_b64.clone(),
            sequence: self.sequence,
            timestamp_epoch_ms: self.timestamp_epoch_ms,
        }
    }
}

/// A message as handed back to a receiving peer.
#[derive(Debug, Clone, PartialEq, Eq)]
pub struct MailboxMessage {
    pub from_mailbox_id: String,
    pub ciphertext_b64: String,
    pub sequence: u64,
    pub timestamp_epoch_ms: u128,
}

impl View for MailboxMessage {
    type V = MessageView;

    open spec fn view(&self) -> MessageView {
        MessageView {
            from_mailbox_id: self.from_mailbox_id@,
            ciphertext_b64: self.ciphertext_b64@,
            sequence: self.sequence,
            timestamp_epoch_ms: self.timestamp_epoch_ms,
        }
    }
}

/// Result of a successful init: the initiator's mailbox and its expiry.
#[derive(Debug, Clone, PartialEq, Eq)]
pub struct ConnectionInitResponse {
    pub mailbox_id: String,
    pub expires_at_epoch_ms: u128,
}

/// Result of a successful join: the responder's mailbox and the pair's expiry.
#[derive(Debug, Clone, PartialEq, Eq)]
pub struct ConnectionJoinResponse {
    pub mailbox_id: String,
    pub expires_at_epoch_ms: u128,
}

/// Result of a recv: the whole list of the mailbox, in order.
#[derive(Debug, Clone, PartialEq, Eq)]
pub struct MailboxRecvResponse {
    pub messages: Vec<MailboxMessage>,
    pub last_sequence: u64,
}

/// What can go wrong in the rendezvous protocol.
#[derive(Debug, Clone, Copy, PartialEq, Eq, Structural)]
pub enum RendezvousError {
    /// The backing store could not be reached or returned garbage.
    Store,
    MailboxNotFound,
    SessionExpired,
    InvalidToken,
    SessionAlreadyPaired,
    NoPeerConnected,
    /// The rendezvous token is already in use by a live pairing.
    TokenConflict,
    /// A freshly drawn mailbox id is already in the store.
    MailboxIdCollision,
}

pub open spec fn rendezvous_status_of(e: RendezvousError) -> u16 {
    match e {
        RendezvousError::Store => 500,
        RendezvousError::MailboxNotFound => 404,
        RendezvousError::SessionExpired => 410,
        RendezvousError::InvalidToken => 404,
        RendezvousError::SessionAlreadyPaired => 409,
        RendezvousError::NoPeerConnected => 409,
        RendezvousError::TokenConflict => 409,
        RendezvousError::MailboxIdCollision => 500,
    }
}

impl RendezvousError {
    /// The HTTP status that the transport answers with for this error.
    pub fn status_code(&self) -> (r: u16)
        ensures
            r == rendezvous_status_of(*self),
    {
        match self {
            RendezvousError::Store => 500,
            RendezvousError::MailboxNotFound => 404,
            RendezvousError::SessionExpired => 410,
            RendezvousError::InvalidToken => 404,
            RendezvousError::SessionAlreadyPaired => 409,
            RendezvousError::NoPeerConnected => 409,
            RendezvousError::TokenConflict => 409,
            RendezvousError::MailboxIdCollision => 500,
        }
    }

    /// The text that the transport sends back with the status; it names no
    /// key and no token.
    pub fn message(&self) -> (r: String)
        ensures
            r@ == rendezvous_message_of(*self),
    {
        match self {
            RendezvousError::Store => String::from_str("Store error"),
            RendezvousError::MailboxNotFound => String::from_str("Mailbox not found"),
            RendezvousError::SessionExpired => String::from_str("Session expired"),
            RendezvousError::InvalidToken => String::from_str("Invalid or expired token"),
            RendezvousError::SessionAlreadyPaired => String::from_str("Session already has a peer"),
            RendezvousError::NoPeerConnected => String::from_str("No peer connected"),
            RendezvousError::TokenConflict => String::from_str("Rendezvous token already in use"),
            RendezvousError::MailboxIdCollision => String::from_str("Mailbox id collision, please retry"),
        }
    }
}

pub open spec fn rendezvous_message_of(e: RendezvousError) -> Seq<char> {
    match e {
        RendezvousError::Store => "Store error"@,
        RendezvousError::MailboxNotFound => "Mailbox not found"@,
        RendezvousError::SessionExpired => "Session expired"@,
        RendezvousError::InvalidToken => "Invalid or expired token"@,
        RendezvousError::SessionAlreadyPaired => "Session already has a peer"@,
        RendezvousError::NoPeerConnected => "No peer connected"@,
        RendezvousError::TokenConflict => "Rendezvous token already in use"@,
        RendezvousError::MailboxIdCollision => "Mailbox id collision, please retry"@,
    }
}

} // verus!
