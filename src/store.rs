//! The mailbox store: mailbox metadata, per-mailbox message lists and
//! rendezvous mappings, every key with its own time to live.
use vstd::prelude::*;
use crate::model::{MailboxMessageStored, MailboxState, MailboxStateView, MessageView};
use crate::table::Table;

verus! {

/// The messages of one mailbox, oldest first.
pub struct MessageList {
    pub items: Vec<MailboxMessageStored>,
}

pub open spec fn messages_view(s: Seq<MailboxMessageStored>) -> Seq<MessageView> {
    s.map_values(|m: MailboxMessageStored| m@)
}

impl View for MessageList {
    type V = Seq<MessageView>;

    open spec fn view(&self) -> Seq<MessageView> {
        messages_view(self.items@)
    }
}

/// A rendezvous mapping: the initiator's mailbox that a token leads to.
pub struct TokenTarget {
    pub mailbox_id: String,
}

impl View for TokenTarget {
    type V = Seq<char>;

    open spec fn view(&self) -> Seq<char> {
        self.mailbox_id@
    }
}

/// The value of a store: each key's content with its absolute expiry.
pub struct StoreModel {
    pub metas: Map<Seq<char>, (MailboxStateView, u128)>,
    pub lists: Map<Seq<char>, (Seq<MessageView>, u128)>,
    pub tokens: Map<Seq<char>, (Seq<char>, u128)>,
}

/// The absolute expiry of a key written at `now` with a time to live of
/// `ttl_secs` seconds (capped at the largest time).
pub open spec fn expiry_after(now: u128, ttl_secs: u64) -> u128 {
    if now + ttl_secs * 1000 > u128::MAX {
        u128::MAX
    } else {
        (now + ttl_secs * 1000) as u128
    }
}

/// A key is live while the time is before its expiry.
pub open spec fn is_live<V>(m: Map<Seq<char>, (V, u128)>, k: Seq<char>, now: u128) -> bool {
    m.contains_key(k) && now < m[k].1
}

pub open spec fn meta_at(s: StoreModel, id: Seq<char>, now: u128) -> Option<MailboxStateView> {
    if is_live(s.metas, id, now) {
        Some(s.metas[id].0)
    } else {
        None
    }
}

/// The list of a mailbox; one whose key has expired reads as empty.
pub open spec fn list_at(s: StoreModel, id: Seq<char>, now: u128) -> Seq<MessageView> {
    if is_live(s.lists, id, now) {
        s.lists[id].0
    } else {
        Seq::empty()
    }
}

pub open spec fn token_at(s: StoreModel, token: Seq<char>, now: u128) -> Option<Seq<char>> {
    if is_live(s.tokens, token, now) {
        Some(s.tokens[token].0)
    } else {
        None
    }
}

pub open spec fn store_with_meta(s: StoreModel, st: MailboxStateView, exp: u128) -> StoreModel {
    StoreModel { metas: s.metas.insert(st.mailbox_id, (st, exp)), ..s }
}

pub open spec fn store_without_list(s: StoreModel, id: Seq<char>) -> StoreModel {
    StoreModel { lists: s.lists.remove(id), ..s }
}

pub open spec fn store_with_appended(
    s: StoreModel,
    id: Seq<char>,
    m: MessageView,
    now: u128,
    exp: u128,
) -> StoreModel {
    StoreModel { lists: s.lists.insert(id, (list_at(s, id, now).push(m), exp)), ..s }
}

pub open spec fn store_with_token(s: StoreModel, token: Seq<char>, id: Seq<char>, exp: u128) -> StoreModel {
    StoreModel { tokens: s.tokens.insert(token, (id, exp)), ..s }
}

pub open spec fn store_without_token(s: StoreModel, token: Seq<char>) -> StoreModel {
    StoreModel { tokens: s.tokens.remove(token), ..s }
}

pub open spec fn empty_store() -> StoreModel {
    StoreModel { metas: Map::empty(), lists: Map::empty(), tokens: Map::empty() }
}

/// Computes [`expiry_after`].
pub fn expiry_from(now: u128, ttl_secs: u64) -> (r: u128)
    ensures
        r == expiry_after(now, ttl_secs),
{
    let span: u128 = ttl_secs as u128 * 1000;
    now.saturating_add(span)
}

/// An in-process mailbox store in which every key expires on its own.
pub struct MemoryStore {
    metas: Table<MailboxState>,
    lists: Table<MessageList>,
    tokens: Table<TokenTarget>,
}

impl View for MemoryStore {
    type V = StoreModel;

    closed spec fn view(&self) -> StoreModel {
        StoreModel { metas: self.metas@, lists: self.lists@, tokens: self.tokens@ }
    }
}

impl MemoryStore {
    pub closed spec fn wf(&self) -> bool {
        self.metas.wf() && self.lists.wf() && self.tokens.wf()
    }

    pub fn new() -> (s: Self)
        ensures
            s.wf(),
            s@ == empty_store(),
    {
        MemoryStore { metas: Table::new(), lists: Table::new(), tokens: Table::new() }
    }

    /// Writes a mailbox's metadata, replacing any earlier value and
    /// resetting its time to live.
    pub fn put_meta(&mut self, state: MailboxState, ttl_secs: u64, now: u128)
        requires
            old(self).wf(),
        ensures
            final(self).wf(),
            final(self)@ == store_with_meta(old(self)@, state@, expiry_after(now, ttl_secs)),
    {
        let exp = expiry_from(now, ttl_secs);
        let key = state.mailbox_id.clone();
        self.metas.put(key, state, exp);
    }

    /// The live metadata of a mailbox, if any.
    pub fn get_meta(&self, mailbox_id: &String, now: u128) -> (r: Option<MailboxState>)
        requires
            self.wf(),
        ensures
            match r {
                Some(st) => meta_at(self@, mailbox_id@, now) == Some(st@),
                None => meta_at(self@, mailbox_id@, now) is None,
            },
    {
        match self.metas.get(mailbox_id) {
            Some(slot) => {
                if now < slot.expires_at_ms {
                    Some(slot.value.copy())
                } else {
                    None
                }
            },
            None => None,
        }
    }

    /// Whether the store holds metadata under this id, expired or not.
    pub fn has_meta(&self, mailbox_id: &String) -> (r: bool)
        requires
            self.wf(),
        ensures
            r == self@.metas.contains_key(mailbox_id@),
    {
        self.metas.get(mailbox_id).is_some()
    }

    /// Deletes a mailbox's list.
    pub fn clear_list(&mut self, mailbox_id: &String)
        requires
            old(self).wf(),
        ensures
            final(self).wf(),
            final(self)@ == store_without_list(old(self)@, mailbox_id@),
    {
        let _ = self.lists.take(mailbox_id);
    }

    /// Creates a rendezvous mapping; fails, changing nothing, where the
    /// token is already mapped by a live key.
    pub fn put_rendezvous(&mut self, token: String, mailbox_id: String, ttl_secs: u64, now: u128) -> (r: bool)
        requires
            old(self).wf(),
        ensures
            final(self).wf(),
            r == (token_at(old(self)@, token@, now) is None),
            r ==> final(self)@ == store_with_token(
                old(self)@,
                token@,
                mailbox_id@,
                expiry_after(now, ttl_secs),
            ),
            !r ==> final(self)@ == old(self)@,
    {
        let live = match self.tokens.get(&token) {
            Some(slot) => now < slot.expires_at_ms,
            None => false,
        };
        if live {
            false
        } else {
            let exp = expiry_from(now, ttl_secs);
            self.tokens.put(token, TokenTarget { mailbox_id }, exp);
            true
        }
    }

    /// Reads and deletes a rendezvous mapping in one step.
    pub fn take_rendezvous(&mut self, token: &String, now: u128) -> (r: Option<String>)
        requires
            old(self).wf(),
        ensures
            final(self).wf(),
            final(self)@ == store_without_token(old(self)@, token@),
            match r {
                Some(id) => token_at(old(self)@, token@, now) == Some(id@),
                None => token_at(old(self)@, token@, now) is None,
            },
    {
        match self.tokens.take(token) {
            Some(slot) => {
                if now < slot.expires_at_ms {
                    Some(slot.value.mailbox_id)
                } else {
                    None
                }
            },
            None => None,
        }
    }

    /// The number of messages in a mailbox's list.
    pub fn list_len(&self, mailbox_id: &String, now: u128) -> (r: usize)
        requires
            self.wf(),
        ensures
            r == list_at(self@, mailbox_id@, now).len(),
    {
        match self.lists.get(mailbox_id) {
            Some(slot) => {
                if now < slot.expires_at_ms {
                    slot.value.items.len()
                } else {
                    0
                }
            },
            None => 0,
        }
    }

    /// Appends a message to a mailbox's list and resets the list's time to live.
    pub fn append(&mut self, mailbox_id: String, message: MailboxMessageStored, ttl_secs: u64, now: u128)
        requires
            old(self).wf(),
        ensures
            final(self).wf(),
            final(self)@ == store_with_appended(
                old(self)@,
                mailbox_id@,
                message@,
                now,
                expiry_after(now, ttl_secs),
            ),
            list_at(old(self)@, mailbox_id@, now).len() + 1 <= usize::MAX,
    {
        let ghost before = list_at(self@, mailbox_id@, now);
        let ghost msg = message@;
        let mut items = match self.lists.take(&mailbox_id) {
            Some(slot) => {
                if now < slot.expires_at_ms {
                    slot.value.items
                } else {
                    Vec::new()
                }
            },
            None => Vec::new(),
        };
        assert(messages_view(items@) == before);
        items.push(message);
        let _count = items.len();
        assert(messages_view(items@) =~= before.push(msg));
        let exp = expiry_from(now, ttl_secs);
        self.lists.put(mailbox_id, MessageList { items }, exp);
        assert(self.lists@ =~= old(self).lists@.insert(mailbox_id@, (before.push(msg), exp)));
    }

    /// A copy of a mailbox's whole list, oldest first.
    pub fn read_list(&self, mailbox_id: &String, now: u128) -> (r: Vec<MailboxMessageStored>)
        requires
            self.wf(),
        ensures
            messages_view(r@) == list_at(self@, mailbox_id@, now),
    {
        let mut out: Vec<MailboxMessageStored> = Vec::new();
        match self.lists.get(mailbox_id) {
            Some(slot) => {
                if now < slot.expires_at_ms {
                    let items = &slot.value.items;
                    let mut i: usize = 0;
                    while i < items.len()
                        invariant
                            i <= items@.len(),
                            out@.len() == i,
                            forall|j: int| 0 <= j < i ==> #[trigger] out@[j]@ == items@[j]@,
                        decreases items@.len() - i,
                    {
                        out.push(items[i].copy());
                        i = i + 1;
                    }
                    assert(messages_view(out@) =~= messages_view(items@));
                }
            },
            None => {},
        }
        assert(messages_view(out@) =~= list_at(self@, mailbox_id@, now));
        out
    }
}

} // verus!
