//! A blind rendezvous signaling service: two peers that share an
//! out-of-band secret meet through a single-use rendezvous token and then
//! exchange opaque ciphertext through a pair of linked, short-lived mailboxes.
//!
//! - [`rendezvous`]: the coordinator (init, join, send, recv) and its laws.
//! - [`store`]: the mailbox store, every key with its own time to live.
//! - [`push`]: per-mailbox fan-out of new messages to live subscribers.
//! - [`registry`] and [`repository`]: the session shell in front of init.
//! - [`connection`] and [`api`]: peer-side keys, ids and sealed payloads.
//! - [`config`], [`keys`]: server settings and the store's key layout.
//! - [`room`]: password-protected rooms for a single joiner.
//! - [`transfer`]: control messages, safe names and the receiving side of
//!   a peer-to-peer file transfer.
//! - [`greeting`]: the small message buffer behind the `greet` command.
pub mod api;
pub mod config;
pub mod connection;
pub mod encoding;
pub mod flow;
pub mod greeting;
pub mod keys;
pub mod model;
pub mod push;
pub mod registry;
pub mod rendezvous;
pub mod room;
pub mod repository;
pub mod store;
pub mod table;
pub mod text;
pub mod textops;
pub mod transfer;

pub use model::{
    ConnectionInitResponse, ConnectionJoinResponse, MailboxMessage, MailboxMessageStored,
    MailboxRecvResponse, MailboxState, RendezvousError,
};
pub use rendezvous::RendezvousService;
