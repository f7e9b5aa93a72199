//! The session shell: registration and heartbeats of named clients, the
//! session check in front of init, and the direct signal queue between
//! registered clients.
use vstd::prelude::*;
use crate::repository::{
    client_of, envelopes_view, fresh_clients, ids_of, spares, stale_clients, with_client, addressed_to,
    ClientId, ClientRecord, ClientView, EnvelopeView, InMemorySessionRepository, RepositoryView, SignalEnvelope,
    client_view, index_of_client,
};
use crate::text::{decimal, decimal_text};

verus! {

#[derive(Debug, Clone)]
pub struct RegisterRequest {
    pub device_label: String,
}

#[derive(Debug, Clone)]
pub struct RegisterResponse {
    pub client_id: ClientId,
    pub session_token: String,
    pub heartbeat_interval_secs: u64,
    pub display_name: String,
}

#[derive(Debug, Clone)]
pub struct HeartbeatRequest {
    pub client_id: ClientId,
    pub session_token: String,
}

#[derive(Debug, Clone, PartialEq, Eq)]
pub struct HeartbeatResponse {
    pub next_heartbeat_secs: u64,
}

#[derive(Debug, Clone)]
pub struct SignalSubmitRequest {
    pub session_token: String,
    pub envelope: SignalEnvelope,
}

#[derive(Debug, Clone)]
pub struct SignalFetchRequest {
    pub client_id: ClientId,
    pub session_token: String,
}

#[derive(Debug, Clone)]
pub struct SignalFetchResponse {
    pub messages: Vec<SignalEnvelope>,
}

/// Why a session check failed.
#[derive(Debug, Clone, Copy, PartialEq, Eq, Structural)]
pub enum RegistryError {
    ClientNotFound,
    InvalidToken,
}

pub open spec fn registry_status_of(e: RegistryError) -> u16 {
    match e {
        RegistryError::ClientNotFound => 401,
        RegistryError::InvalidToken => 401,
    }
}

impl RegistryError {
    /// The HTTP status that the transport answers with for this error: an
    /// unknown session is unauthorized like a wrong token.
    pub fn status_code(&self) -> (r: u16)
        ensures
            r == registry_status_of(*self),
    {
        match self {
            RegistryError::ClientNotFound => 401,
            RegistryError::InvalidToken => 401,
        }
    }

    /// The text that the transport sends back with the status.
    pub fn message(&self) -> (r: String)
        ensures
            r@ == match *self {
                RegistryError::ClientNotFound => "client not found"@,
                RegistryError::InvalidToken => "session token rejected"@,
            },
    {
        match self {
            RegistryError::ClientNotFound => String::from_str("client not found"),
            RegistryError::InvalidToken => String::from_str("session token rejected"),
        }
    }
}

/// The text form of a UUID given by its 128 bits.
pub uninterp spec fn uuid_text_of(id: u128) -> Seq<char>;

/// Relies on uuid's Uuid::new_v4: 128 bits from the operating system's
/// random source (version and variant bits set), nothing known of them.
#[verifier::external_body]
fn new_uuid() -> (r: u128) {
    uuid::Uuid::new_v4().as_u128()
}

/// Relies on uuid's Display for Uuid (the hyphenated lower-case form).
#[verifier::external_body]
fn uuid_text(id: u128) -> (r: String)
    ensures
        r@ == uuid_text_of(id),
{
    uuid::Uuid::from_u128(id).to_string()
}

/// The clients and queued signals left after the stale clients, and every
/// signal from or to one of them, are dropped.
pub open spec fn pruned(v: RepositoryView, now_ms: u64, ttl_ms: u64) -> RepositoryView {
    RepositoryView {
        clients: fresh_clients(v.clients, now_ms, ttl_ms),
        messages: v.messages.filter(
            |m: EnvelopeView| spares(m, ids_of(stale_clients(v.clients, now_ms, ttl_ms))),
        ),
    }
}

/// The outcome of checking a client's session token.
pub open spec fn session_check(cs: Seq<ClientView>, id: ClientId, token: Seq<char>) -> Result<ClientView, RegistryError> {
    match client_of(cs, id) {
        None => Err(RegistryError::ClientNotFound),
        Some(c) => if c.session_token == token {
            Ok(c)
        } else {
            Err(RegistryError::InvalidToken)
        },
    }
}

/// The display name of the n-th client: "Client n".
pub open spec fn display_name_of(n: nat) -> Seq<char> {
    "Client "@ + decimal(n)
}

/// A registry of client sessions, with the signals queued between them.
pub struct SessionRegistry {
    repository: InMemorySessionRepository,
    session_ttl_ms: u64,
    heartbeat_interval_secs: u64,
}

impl View for SessionRegistry {
    type V = RepositoryView;

    closed spec fn view(&self) -> RepositoryView {
        self.repository@
    }
}

impl SessionRegistry {
    pub closed spec fn wf(&self) -> bool {
        self.repository.wf()
    }

    /// How long a client lives after its last heartbeat, in milliseconds.
    pub closed spec fn ttl_ms(&self) -> u64 {
        self.session_ttl_ms
    }

    pub closed spec fn heartbeat_secs(&self) -> u64 {
        self.heartbeat_interval_secs
    }

    /// A registry whose sessions live `session_ttl_secs` after their last
    /// heartbeat (capped at the largest time), and whose clients beat every
    /// `heartbeat_interval_secs`.
    pub fn new(session_ttl_secs: u64, heartbeat_interval_secs: u64) -> (r: Self)
        ensures
            r.wf(),
            r@.clients.len() == 0,
            r@.messages.len() == 0,
            r.ttl_ms() == if session_ttl_secs * 1000 > u64::MAX {
                u64::MAX as int
            } else {
                session_ttl_secs * 1000
            },
            r.heartbeat_secs() == heartbeat_interval_secs,
    {
        let session_ttl_ms = match session_ttl_secs.checked_mul(1000) {
            Some(ms) => ms,
            None => u64::MAX,
        };
        SessionRegistry { repository: InMemorySessionRepository::new(), session_ttl_ms, heartbeat_interval_secs }
    }

    /// Drops the clients whose last heartbeat is a session's lifetime or
    /// more before `now_ms`, and every signal from or to them.
    pub fn prune_expired(&mut self, now_ms: u64)
        requires
            old(self).wf(),
        ensures
            final(self).wf(),
            final(self).ttl_ms() == old(self).ttl_ms(),
            final(self).heartbeat_secs() == old(self).heartbeat_secs(),
            final(self)@ == pruned(old(self)@, now_ms, old(self).ttl_ms()),
    {
        let ghost before = self@;
        let stale = self.repository.prune_stale_clients(now_ms, self.session_ttl_ms);
        self.repository.prune_messages_for_clients(stale.as_slice());
        assert(self@ == pruned(before, now_ms, self.session_ttl_ms));
    }

    /// Checks a client's session token; hands back a copy of its record.
    pub fn verify_client(&self, client_id: ClientId, session_token: &String) -> (r: Result<ClientRecord, RegistryError>)
        requires
            self.wf(),
        ensures
            match r {
                Ok(rec) => session_check(self@.clients, client_id, session_token@) == Ok::<
                    ClientView,
                    RegistryError,
                >(client_view(client_id, rec)),
                Err(e) => session_check(self@.clients, client_id, session_token@) == Err::<
                    ClientView,
                    RegistryError,
                >(e),
            },
    {
        let record = match self.repository.get_client(client_id) {
            Some(rec) => rec,
            None => {
                return Err(RegistryError::ClientNotFound);
            },
        };
        if record.session_token != *session_token {
            return Err(RegistryError::InvalidToken);
        }
        Ok(record)
    }

    /// Checks a client's session token.
    pub fn verify_session(&self, client_id: ClientId, session_token: &String) -> (r: Result<(), RegistryError>)
        requires
            self.wf(),
        ensures
            match r {
                Ok(()) => session_check(self@.clients, client_id, session_token@) is Ok,
                Err(e) => session_check(self@.clients, client_id, session_token@) == Err::<
                    ClientView,
                    RegistryError,
                >(e),
            },
    {
        match self.verify_client(client_id, session_token) {
            Ok(_) => Ok(()),
            Err(e) => Err(e),
        }
    }

    /// Registers a client with a given id and session token at `now_ms`,
    /// after pruning. It is named after the number of clients then
    /// registered, itself included.
    pub fn register_with(
        &mut self,
        request: RegisterRequest,
        client_id: ClientId,
        session_token: String,
        now_ms: u64,
    ) -> (r: RegisterResponse)
        requires
            old(self).wf(),
        ensures
            final(self).wf(),
            final(self).ttl_ms() == old(self).ttl_ms(),
            final(self).heartbeat_secs() == old(self).heartbeat_secs(),
            ({
                let p = pruned(old(self)@, now_ms, old(self).ttl_ms());
                &&& final(self)@.clients == with_client(
                    p.clients,
                    ClientView {
                        client_id,
                        device_label: request.device_label@,
                        session_token: session_token@,
                        registered_at_ms: now_ms,
                        last_heartbeat_ms: now_ms,
                    },
                )
                &&& final(self)@.messages == p.messages
                &&& r.display_name@ == display_name_of(p.clients.len() + 1)
            }),
            r.client_id == client_id,
            r.session_token@ == session_token@,
            r.heartbeat_interval_secs == old(self).heartbeat_secs(),
    {
        self.prune_expired(now_ms);
        let count = self.repository.get_client_count();
        let ordinal = (count as u128) + 1;
        let display_name = String::from_str("Client ").concat(decimal_text(ordinal).as_str());
        let token_copy = session_token.clone();
        let record = ClientRecord {
            device_label: request.device_label,
            session_token,
            registered_at_ms: now_ms,
            last_heartbeat_ms: now_ms,
        };
        self.repository.insert_client(client_id, record);
        RegisterResponse {
            client_id,
            session_token: token_copy,
            heartbeat_interval_secs: self.heartbeat_interval_secs,
            display_name,
        }
    }

    /// Registers a client at `now_ms` under a fresh random id, with a fresh
    /// random session token (a UUID in text form).
    pub fn register(&mut self, request: RegisterRequest, now_ms: u64) -> (r: RegisterResponse)
        requires
            old(self).wf(),
        ensures
            final(self).wf(),
            final(self).ttl_ms() == old(self).ttl_ms(),
            final(self).heartbeat_secs() == old(self).heartbeat_secs(),
            ({
                let p = pruned(old(self)@, now_ms, old(self).ttl_ms());
                &&& final(self)@.clients == with_client(
                    p.clients,
                    ClientView {
                        client_id: r.client_id,
                        device_label: request.device_label@,
                        session_token: r.session_token@,
                        registered_at_ms: now_ms,
                        last_heartbeat_ms: now_ms,
                    },
                )
                &&& final(self)@.messages == p.messages
                &&& r.display_name@ == display_name_of(p.clients.len() + 1)
            }),
            exists|t: u128| r.session_token@ == uuid_text_of(t),
            r.heartbeat_interval_secs == old(self).heartbeat_secs(),
    {
        let client_id = new_uuid();
        let token_id = new_uuid();
        let session_token = uuid_text(token_id);
        self.register_with(request, client_id, session_token, now_ms)
    }
}

} // verus!

verus! {

impl SessionRegistry {
    /// Records a heartbeat at `now_ms`, after pruning, where the session
    /// token checks out.
    pub fn heartbeat(&mut self, request: HeartbeatRequest, now_ms: u64) -> (r: Result<HeartbeatResponse, RegistryError>)
        requires
            old(self).wf(),
        ensures
            final(self).wf(),
            final(self).ttl_ms() == old(self).ttl_ms(),
            final(self).heartbeat_secs() == old(self).heartbeat_secs(),
            ({
                let p = pruned(old(self)@, now_ms, old(self).ttl_ms());
                match session_check(p.clients, request.client_id, request.session_token@) {
                    Err(e) => r == Err::<HeartbeatResponse, RegistryError>(e) && final(self)@ == p,
                    Ok(c) => {
                        &&& r == Ok::<HeartbeatResponse, RegistryError>(
                            HeartbeatResponse { next_heartbeat_secs: old(self).heartbeat_secs() },
                        )
                        &&& final(self)@.clients == p.clients.update(
                            index_of_client(p.clients, request.client_id),
                            ClientView { last_heartbeat_ms: now_ms, ..c },
                        )
                        &&& final(self)@.messages == p.messages
                    },
                }
            }),
    {
        self.prune_expired(now_ms);
        match self.verify_client(request.client_id, &request.session_token) {
            Ok(_) => {},
            Err(e) => {
                return Err(e);
            },
        }
        if !self.repository.update_client_heartbeat(request.client_id, now_ms) {
            return Err(RegistryError::ClientNotFound);
        }
        Ok(HeartbeatResponse { next_heartbeat_secs: self.heartbeat_interval_secs })
    }

    /// Queues a signal, stamped with the wall-clock time `epoch_ms`, after
    /// pruning at `now_ms`, where the sender's session token checks out.
    pub fn enqueue_signal(&mut self, submit: SignalSubmitRequest, now_ms: u64, epoch_ms: u128) -> (r: Result<(), RegistryError>)
        requires
            old(self).wf(),
        ensures
            final(self).wf(),
            final(self).ttl_ms() == old(self).ttl_ms(),
            final(self).heartbeat_secs() == old(self).heartbeat_secs(),
            ({
                let p = pruned(old(self)@, now_ms, old(self).ttl_ms());
                match session_check(p.clients, submit.envelope.from, submit.session_token@) {
                    Err(e) => r == Err::<(), RegistryError>(e) && final(self)@ == p,
                    Ok(_) => {
                        &&& r is Ok
                        &&& final(self)@.clients == p.clients
                        &&& final(self)@.messages == p.messages.push(
                            EnvelopeView { created_at_epoch_ms: epoch_ms, ..submit.envelope@ },
                        )
                    },
                }
            }),
    {
        self.prune_expired(now_ms);
        match self.verify_client(submit.envelope.from, &submit.session_token) {
            Ok(_) => {},
            Err(e) => {
                return Err(e);
            },
        }
        let envelope = SignalEnvelope { created_at_epoch_ms: epoch_ms, ..submit.envelope };
        self.repository.add_message(envelope);
        Ok(())
    }

    /// Takes the signals addressed to a client, after pruning at `now_ms`,
    /// where its session token checks out.
    pub fn fetch_signals(&mut self, request: SignalFetchRequest, now_ms: u64) -> (r: Result<SignalFetchResponse, RegistryError>)
        requires
            old(self).wf(),
        ensures
            final(self).wf(),
            final(self).ttl_ms() == old(self).ttl_ms(),
            final(self).heartbeat_secs() == old(self).heartbeat_secs(),
            ({
                let p = pruned(old(self)@, now_ms, old(self).ttl_ms());
                match session_check(p.clients, request.client_id, request.session_token@) {
                    Err(e) => r is Err && r->Err_0 == e && final(self)@ == p,
                    Ok(_) => {
                        &&& r is Ok
                        &&& envelopes_view(r->Ok_0.messages@) == p.messages.filter(
                            |m: EnvelopeView| addressed_to(m, request.client_id),
                        )
                        &&& final(self)@.clients == p.clients
                        &&& final(self)@.messages == p.messages.filter(
                            |m: EnvelopeView| !addressed_to(m, request.client_id),
                        )
                    },
                }
            }),
    {
        self.prune_expired(now_ms);
        match self.verify_client(request.client_id, &request.session_token) {
            Ok(_) => {},
            Err(e) => {
                return Err(e);
            },
        }
        let messages = self.repository.get_messages_for_client(request.client_id);
        Ok(SignalFetchResponse { messages })
    }
}

} // verus!
