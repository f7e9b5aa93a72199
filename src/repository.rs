//! The session repository: registered clients and the signals queued
//! between them, held in memory.
use vstd::prelude::*;

verus! {

/// A client's id (the 128 bits of a random UUID).
pub type ClientId = u128;

/// What is known of a registered client. Times are milliseconds of a
/// monotonic clock.
#[derive(Debug, Clone)]
pub struct ClientRecord {
    pub device_label: String,
    pub session_token: String,
    pub registered_at_ms: u64,
    pub last_heartbeat_ms: u64,
}

/// The value of a client together with its id.
pub struct ClientView {
    pub client_id: ClientId,
    pub device_label: Seq<char>,
    pub session_token: Seq<char>,
    pub registered_at_ms: u64,
    pub last_heartbeat_ms: u64,
}

pub open spec fn client_view(id: ClientId, r: ClientRecord) -> ClientView {
    ClientView {
        client_id: id,
        device_label: r.device_label@,
        session_token: r.session_token@,
        registered_at_ms: r.registered_at_ms,
        last_heartbeat_ms: r.last_heartbeat_ms,
    }
}

impl ClientRecord {
    /// A field-by-field copy with the same value.
    pub fn copy(&self) -> (r: ClientRecord)
        ensures
            client_view(0, r) == client_view(0, *self),
    {
        ClientRecord {
            device_label: self.device_label.clone(),
            session_token: self.session_token.clone(),
            registered_at_ms: self.registered_at_ms,
            last_heartbeat_ms: self.last_heartbeat_ms,
        }
    }
}

/// A signal from one client to another.
#[derive(Debug, Clone)]
pub struct SignalEnvelope {
    pub from: ClientId,
    pub to: ClientId,
    pub payload: String,
    pub created_at_epoch_ms: u128,
}

pub struct EnvelopeView {
    pub from: ClientId,
    pub to: ClientId,
    pub payload: Seq<char>,
    pub created_at_epoch_ms: u128,
}

impl View for SignalEnvelope {
    type V = EnvelopeView;

    open spec fn view(&self) -> EnvelopeView {
        EnvelopeView {
            from: self.from,
            to: self.to,
            payload: self.payload@,
            created_at_epoch_ms: self.created_at_epoch_ms,
        }
    }
}

impl SignalEnvelope {
    /// A field-by-field copy with the same value.
    pub fn copy(&self) -> (r: SignalEnvelope)
        ensures
            r@ == self@,
    {
        SignalEnvelope {
            from: self.from,
            to: self.to,
            payload: self.payload.clone(),
            created_at_epoch_ms: self.created_at_epoch_ms,
        }
    }
}

pub open spec fn envelopes_view(s: Seq<SignalEnvelope>) -> Seq<EnvelopeView> {
    s.map_values(|e: SignalEnvelope| e@)
}

struct ClientEntry {
    client_id: ClientId,
    record: ClientRecord,
}

/// The value of a repository: clients in order of registration, and the
/// queued signals in order of arrival.
pub struct RepositoryView {
    pub clients: Seq<ClientView>,
    pub messages: Seq<EnvelopeView>,
}

pub open spec fn index_of_client(cs: Seq<ClientView>, id: ClientId) -> int {
    choose|i: int| 0 <= i < cs.len() && cs[i].client_id == id
}

pub open spec fn has_client(cs: Seq<ClientView>, id: ClientId) -> bool {
    exists|i: int| 0 <= i < cs.len() && #[trigger] cs[i].client_id == id
}

/// The registered client with this id, if any.
pub open spec fn client_of(cs: Seq<ClientView>, id: ClientId) -> Option<ClientView> {
    if has_client(cs, id) {
        Some(cs[index_of_client(cs, id)])
    } else {
        None
    }
}

pub open spec fn ids_unique(cs: Seq<ClientView>) -> bool {
    forall|i: int, j: int|
        0 <= i < cs.len() && 0 <= j < cs.len() && i != j ==> #[trigger] cs[i].client_id != #[trigger] cs[j].client_id
}

/// Inserts a client, replacing the one with the same id in place.
pub open spec fn with_client(cs: Seq<ClientView>, c: ClientView) -> Seq<ClientView> {
    if has_client(cs, c.client_id) {
        cs.update(index_of_client(cs, c.client_id), c)
    } else {
        cs.push(c)
    }
}

/// A client is |c: ClientView| is_stale(c, now_ms, ttl_ms) once `ttl_ms` have passed since its last heartbeat.
pub open spec fn is_stale(c: ClientView, now_ms: u64, ttl_ms: u64) -> bool {
    now_ms >= c.last_heartbeat_ms + ttl_ms
}

pub open spec fn fresh_clients(cs: Seq<ClientView>, now_ms: u64, ttl_ms: u64) -> Seq<ClientView> {
    cs.filter(|c: ClientView| !is_stale(c, now_ms, ttl_ms))
}

pub open spec fn stale_clients(cs: Seq<ClientView>, now_ms: u64, ttl_ms: u64) -> Seq<ClientView> {
    cs.filter(|c: ClientView| is_stale(c, now_ms, ttl_ms))
}

pub open spec fn ids_of(cs: Seq<ClientView>) -> Seq<ClientId> {
    cs.map_values(|c: ClientView| c.client_id)
}

/// A signal survives the removal of the clients `ids` unless it is from or
/// to one of them.
pub open spec fn spares(m: EnvelopeView, ids: Seq<ClientId>) -> bool {
    !ids.contains(m.from) && !ids.contains(m.to)
}

pub open spec fn addressed_to(m: EnvelopeView, id: ClientId) -> bool {
    m.to == id
}

/// An in-memory repository of clients and queued signals.
pub struct InMemorySessionRepository {
    clients: Vec<ClientEntry>,
    messages: Vec<SignalEnvelope>,
}

impl View for InMemorySessionRepository {
    type V = RepositoryView;

    closed spec fn view(&self) -> RepositoryView {
        RepositoryView {
            clients: self.clients@.map_values(|e: ClientEntry| client_view(e.client_id, e.record)),
            messages: envelopes_view(self.messages@),
        }
    }
}

impl InMemorySessionRepository {
    /// Client ids are unique.
    pub closed spec fn wf(&self) -> bool {
        ids_unique(self@.clients)
    }

    pub fn new() -> (r: Self)
        ensures
            r.wf(),
            r@.clients.len() == 0,
            r@.messages.len() == 0,
    {
        InMemorySessionRepository { clients: Vec::new(), messages: Vec::new() }
    }

    fn find(&self, client_id: ClientId) -> (r: Option<usize>)
        requires
            self.wf(),
        ensures
            match r {
                Some(i) => i < self@.clients.len() && self@.clients[i as int].client_id == client_id
                    && index_of_client(self@.clients, client_id) == i && has_client(self@.clients, client_id),
                None => !has_client(self@.clients, client_id),
            },
    {
        let mut i: usize = 0;
        while i < self.clients.len()
            invariant
                self.wf(),
                i <= self.clients@.len(),
                forall|j: int| 0 <= j < i ==> self@.clients[j].client_id != client_id,
            decreases self.clients@.len() - i,
        {
            if self.clients[i].client_id == client_id {
                proof {
                    let cs = self@.clients;
                    assert(cs[i as int].client_id == client_id);
                    let k = index_of_client(cs, client_id);
                    assert(cs[k].client_id == client_id);
                }
                return Some(i);
            }
            i = i + 1;
        }
        None
    }

    /// Adds a client, or replaces the one with the same id.
    pub fn insert_client(&mut self, client_id: ClientId, record: ClientRecord)
        requires
            old(self).wf(),
        ensures
            final(self).wf(),
            final(self)@.clients == with_client(old(self)@.clients, client_view(client_id, record)),
            final(self)@.messages == old(self)@.messages,
    {
        let ghost c = client_view(client_id, record);
        let ghost before = self@.clients;
        match self.find(client_id) {
            Some(i) => {
                self.clients.set(i, ClientEntry { client_id, record });
                assert(self@.clients =~= before.update(i as int, c));
            },
            None => {
                self.clients.push(ClientEntry { client_id, record });
                assert(self@.clients =~= before.push(c));
            },
        }
    }

    /// A copy of the client's record, if it is registered.
    pub fn get_client(&self, client_id: ClientId) -> (r: Option<ClientRecord>)
        requires
            self.wf(),
        ensures
            match r {
                Some(rec) => client_of(self@.clients, client_id) == Some(client_view(client_id, rec)),
                None => client_of(self@.clients, client_id) is None,
            },
    {
        match self.find(client_id) {
            Some(i) => {
                let rec = self.clients[i].record.copy();
                Some(rec)
            },
            None => None,
        }
    }

    /// Records a heartbeat; false where the client is not registered.
    pub fn update_client_heartbeat(&mut self, client_id: ClientId, timestamp_ms: u64) -> (r: bool)
        requires
            old(self).wf(),
        ensures
            final(self).wf(),
            r == has_client(old(self)@.clients, client_id),
            r ==> final(self)@.clients == old(self)@.clients.update(
                index_of_client(old(self)@.clients, client_id),
                ClientView {
                    last_heartbeat_ms: timestamp_ms,
                    ..old(self)@.clients[index_of_client(old(self)@.clients, client_id)]
                },
            ),
            !r ==> final(self)@.clients == old(self)@.clients,
            final(self)@.messages == old(self)@.messages,
    {
        match self.find(client_id) {
            Some(i) => {
                let ghost before = self@.clients;
                let rec = self.clients[i].record.copy();
                let updated = ClientRecord { last_heartbeat_ms: timestamp_ms, ..rec };
                self.clients.set(i, ClientEntry { client_id, record: updated });
                assert(self@.clients =~= before.update(
                    i as int,
                    ClientView { last_heartbeat_ms: timestamp_ms, ..before[i as int] },
                ));
                true
            },
            None => false,
        }
    }

    /// Removes the client, if registered.
    pub fn remove_client(&mut self, client_id: ClientId)
        requires
            old(self).wf(),
        ensures
            final(self).wf(),
            !has_client(final(self)@.clients, client_id),
            has_client(old(self)@.clients, client_id) ==> final(self)@.clients == old(self)@.clients.remove(
                index_of_client(old(self)@.clients, client_id),
            ),
            !has_client(old(self)@.clients, client_id) ==> final(self)@.clients == old(self)@.clients,
            final(self)@.messages == old(self)@.messages,
    {
        match self.find(client_id) {
            Some(i) => {
                let ghost before = self@.clients;
                self.clients.remove(i);
                assert(self@.clients =~= before.remove(i as int));
                assert forall|a: int, b: int|
                    0 <= a < self@.clients.len() && 0 <= b < self@.clients.len() && a != b
                    implies #[trigger] self@.clients[a].client_id != #[trigger] self@.clients[b].client_id by {
                    let a0 = if a < i { a } else { a + 1 };
                    let b0 = if b < i { b } else { b + 1 };
                    assert(before[a0] == self@.clients[a]);
                    assert(before[b0] == self@.clients[b]);
                }
                assert forall|j: int| 0 <= j < self@.clients.len() implies #[trigger] self@.clients[j].client_id
                    != client_id by {
                    let j0 = if j < i { j } else { j + 1 };
                    assert(before[j0] == self@.clients[j]);
                }
            },
            None => {},
        }
    }

    pub fn get_client_count(&self) -> (r: usize)
        ensures
            r == self@.clients.len(),
    {
        self.clients.len()
    }

    /// Queues a signal.
    pub fn add_message(&mut self, message: SignalEnvelope)
        requires
            old(self).wf(),
        ensures
            final(self).wf(),
            final(self)@.messages == old(self)@.messages.push(message@),
            final(self)@.clients == old(self)@.clients,
    {
        let ghost before = self@.messages;
        self.messages.push(message);
        assert(self@.messages =~= before.push(message@));
    }
}

} // verus!

verus! {

impl InMemorySessionRepository {
    /// Takes the signals addressed to a client out of the queue, in order
    /// of arrival; the others stay, in order.
    pub fn get_messages_for_client(&mut self, client_id: ClientId) -> (r: Vec<SignalEnvelope>)
        requires
            old(self).wf(),
        ensures
            final(self).wf(),
            envelopes_view(r@) == old(self)@.messages.filter(|m: EnvelopeView| addressed_to(m, client_id)),
            final(self)@.messages == old(self)@.messages.filter(|m: EnvelopeView| !addressed_to(m, client_id)),
            final(self)@.clients == old(self)@.clients,
    {
        let ghost ms = self@.messages;
        let mut collected: Vec<SignalEnvelope> = Vec::new();
        let mut remaining: Vec<SignalEnvelope> = Vec::new();
        let mut i: usize = 0;
        while i < self.messages.len()
            invariant
                i <= self.messages@.len(),
                ms == envelopes_view(self.messages@),
                envelopes_view(collected@) == ms.subrange(0, i as int).filter(|m: EnvelopeView| addressed_to(m, client_id)),
                envelopes_view(remaining@) == ms.subrange(0, i as int).filter(|m: EnvelopeView| !addressed_to(m, client_id)),
            decreases self.messages@.len() - i,
        {
            let m = self.messages[i].copy();
            proof {
                lemma_filter_step(ms, |m: EnvelopeView| addressed_to(m, client_id), i as int);
                lemma_filter_step(ms, |m: EnvelopeView| !addressed_to(m, client_id), i as int);
                assert(ms[i as int] == m@);
            }
            if m.to == client_id {
                let ghost before = collected@;
                collected.push(m);
                assert(envelopes_view(collected@) =~= envelopes_view(before).push(ms[i as int]));
            } else {
                let ghost before = remaining@;
                remaining.push(m);
                assert(envelopes_view(remaining@) =~= envelopes_view(before).push(ms[i as int]));
            }
            i = i + 1;
        }
        assert(ms.subrange(0, ms.len() as int) =~= ms);
        self.messages = remaining;
        collected
    }

    /// Removes the clients whose last heartbeat is `ttl_ms` or more before
    /// `now_ms`; hands back their ids in order.
    pub fn prune_stale_clients(&mut self, now_ms: u64, ttl_ms: u64) -> (r: Vec<ClientId>)
        requires
            old(self).wf(),
        ensures
            final(self).wf(),
            final(self)@.clients == fresh_clients(old(self)@.clients, now_ms, ttl_ms),
            r@ == ids_of(stale_clients(old(self)@.clients, now_ms, ttl_ms)),
            final(self)@.messages == old(self)@.messages,
    {
        let ghost cs = self@.clients;
        let mut kept: Vec<ClientEntry> = Vec::new();
        let mut gone: Vec<ClientId> = Vec::new();
        let mut i: usize = 0;
        while i < self.clients.len()
            invariant
                i <= self.clients@.len(),
                cs == self@.clients,
                kept@.map_values(|e: ClientEntry| client_view(e.client_id, e.record)) == cs.subrange(
                    0,
                    i as int,
                ).filter(|c: ClientView| !is_stale(c, now_ms, ttl_ms)),
                gone@ == ids_of(cs.subrange(0, i as int).filter(|c: ClientView| is_stale(c, now_ms, ttl_ms))),
            decreases self.clients@.len() - i,
        {
            let e = &self.clients[i];
            let id = e.client_id;
            let rec = e.record.copy();
            proof {
                lemma_filter_step(cs, |c: ClientView| !is_stale(c, now_ms, ttl_ms), i as int);
                lemma_filter_step(cs, |c: ClientView| is_stale(c, now_ms, ttl_ms), i as int);
                assert(cs[i as int] == client_view(id, rec));
            }
            let elapsed_enough = now_ms >= rec.last_heartbeat_ms && now_ms - rec.last_heartbeat_ms >= ttl_ms;
            if elapsed_enough {
                gone.push(id);
                proof {
                    let stale_before = cs.subrange(0, i as int).filter(
                        |c: ClientView| is_stale(c, now_ms, ttl_ms),
                    );
                    assert(ids_of(stale_before.push(cs[i as int])) =~= ids_of(stale_before).push(id));
                }
            } else {
                let ghost before = kept@;
                kept.push(ClientEntry { client_id: id, record: rec });
                assert(kept@.map_values(|e: ClientEntry| client_view(e.client_id, e.record)) =~= before.map_values(
                    |e: ClientEntry| client_view(e.client_id, e.record),
                ).push(cs[i as int]));
            }
            i = i + 1;
        }
        assert(cs.subrange(0, cs.len() as int) =~= cs);
        proof {
            let out = cs.filter(|c: ClientView| !is_stale(c, now_ms, ttl_ms));
            assert forall|a: int, b: int| 0 <= a < out.len() && 0 <= b < out.len() && a != b implies #[trigger] out[a].client_id
                != #[trigger] out[b].client_id by {
                lemma_filter_keeps_unique(cs, |c: ClientView| !is_stale(c, now_ms, ttl_ms), a, b);
            }
        }
        self.clients = kept;
        gone
    }

    /// Drops every queued signal from or to one of `client_ids`.
    pub fn prune_messages_for_clients(&mut self, client_ids: &[ClientId])
        requires
            old(self).wf(),
        ensures
            final(self).wf(),
            final(self)@.messages == old(self)@.messages.filter(|m: EnvelopeView| spares(m, client_ids@)),
            final(self)@.clients == old(self)@.clients,
    {
        if client_ids.len() == 0 {
            proof {
                let ms = self@.messages;
                lemma_filter_all(ms, |m: EnvelopeView| spares(m, client_ids@));
            }
            return;
        }
        let ghost ms = self@.messages;
        let mut remaining: Vec<SignalEnvelope> = Vec::new();
        let mut i: usize = 0;
        while i < self.messages.len()
            invariant
                i <= self.messages@.len(),
                ms == envelopes_view(self.messages@),
                envelopes_view(remaining@) == ms.subrange(0, i as int).filter(|m: EnvelopeView| spares(m, client_ids@)),
            decreases self.messages@.len() - i,
        {
            let m = self.messages[i].copy();
            proof {
                lemma_filter_step(ms, |m: EnvelopeView| spares(m, client_ids@), i as int);
                assert(ms[i as int] == m@);
            }
            if !contains_id(client_ids, m.from) && !contains_id(client_ids, m.to) {
                let ghost before = remaining@;
                remaining.push(m);
                assert(envelopes_view(remaining@) =~= envelopes_view(before).push(ms[i as int]));
            }
            i = i + 1;
        }
        assert(ms.subrange(0, ms.len() as int) =~= ms);
        self.messages = remaining;
    }
}

fn contains_id(ids: &[ClientId], id: ClientId) -> (r: bool)
    ensures
        r == ids@.contains(id),
{
    let mut i: usize = 0;
    while i < ids.len()
        invariant
            i <= ids@.len(),
            forall|j: int| 0 <= j < i ==> ids@[j] != id,
        decreases ids@.len() - i,
    {
        if ids[i] == id {
            return true;
        }
        i = i + 1;
    }
    false
}

/// Filtering one more element of a prefix.
pub proof fn lemma_filter_step<A>(s: Seq<A>, pred: spec_fn(A) -> bool, i: int)
    requires
        0 <= i < s.len(),
    ensures
        s.subrange(0, i + 1).filter(pred) == if pred(s[i]) {
            s.subrange(0, i).filter(pred).push(s[i])
        } else {
            s.subrange(0, i).filter(pred)
        },
{
    reveal(Seq::filter);
    assert(s.subrange(0, i + 1).drop_last() =~= s.subrange(0, i));
}

/// Filtering a sequence whose every element passes changes nothing.
proof fn lemma_filter_all<A>(s: Seq<A>, pred: spec_fn(A) -> bool)
    requires
        forall|i: int| 0 <= i < s.len() ==> pred(#[trigger] s[i]),
    ensures
        s.filter(pred) == s,
    decreases s.len(),
{
    reveal(Seq::filter);
    if s.len() > 0 {
        lemma_filter_all(s.drop_last(), pred);
        assert(s.drop_last().push(s.last()) =~= s);
    }
}

/// Every element of a filtered sequence comes from the sequence.
proof fn lemma_filter_from(s: Seq<ClientView>, pred: spec_fn(ClientView) -> bool, k: int) -> (j: int)
    requires
        0 <= k < s.filter(pred).len(),
    ensures
        0 <= j < s.len(),
        s[j] == s.filter(pred)[k],
    decreases s.len(),
{
    reveal(Seq::filter);
    let rest = s.drop_last();
    if pred(s.last()) && k == rest.filter(pred).len() {
        s.len() - 1
    } else {
        lemma_filter_from(rest, pred, k)
    }
}

/// Filtering keeps ids unique.
proof fn lemma_filter_keeps_unique(cs: Seq<ClientView>, pred: spec_fn(ClientView) -> bool, a: int, b: int)
    requires
        ids_unique(cs),
        0 <= a < cs.filter(pred).len(),
        0 <= b < cs.filter(pred).len(),
        a != b,
    ensures
        cs.filter(pred)[a].client_id != cs.filter(pred)[b].client_id,
    decreases cs.len(),
{
    reveal(Seq::filter);
    let f = cs.filter(pred);
    let rest = cs.drop_last();
    let fr = rest.filter(pred);
    assert(ids_unique(rest));
    if pred(cs.last()) {
        assert(f == fr.push(cs.last()));
        if a < fr.len() && b < fr.len() {
            lemma_filter_keeps_unique(rest, pred, a, b);
        } else {
            let k = if a < fr.len() { a } else { b };
            let j = lemma_filter_from(rest, pred, k);
            assert(cs[j] == rest[j]);
            assert(cs[cs.len() - 1] == cs.last());
        }
    } else {
        assert(f == fr);
        lemma_filter_keeps_unique(rest, pred, a, b);
    }
}

} // verus!
