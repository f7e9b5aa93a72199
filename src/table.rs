//! A keyed table whose entries carry an absolute expiry time.
use vstd::prelude::*;

verus! {

/// One entry of a [`Table`].
pub struct Slot<V> {
    pub key: String,
    pub value: V,
    pub expires_at_ms: u128,
}

/// A table from string keys to values, each with an absolute expiry time.
/// Its value is a map from each key to the value's view and its expiry.
pub struct Table<V: View> {
    slots: Vec<Slot<V>>,
    contents: Ghost<Map<Seq<char>, (V::V, u128)>>,
}

impl<V: View> View for Table<V> {
    type V = Map<Seq<char>, (V::V, u128)>;

    closed spec fn view(&self) -> Map<Seq<char>, (V::V, u128)> {
        self.contents@
    }
}

impl<V: View> Table<V> {
    /// Keys are unique and the slots hold exactly the map's entries.
    pub closed spec fn wf(&self) -> bool {
        &&& forall|i: int|
            0 <= i < self.slots@.len() ==> {
                &&& #[trigger] self.contents@.contains_key(self.slots@[i].key@)
                &&& self.contents@[self.slots@[i].key@] == (
                    self.slots@[i].value@,
                    self.slots@[i].expires_at_ms,
                )
            }
        &&& forall|k: Seq<char>|
            #[trigger] self.contents@.contains_key(k) ==> exists|i: int|
                0 <= i < self.slots@.len() && #[trigger] self.slots@[i].key@ == k
        &&& forall|i: int, j: int|
            0 <= i < self.slots@.len() && 0 <= j < self.slots@.len() && i != j
                ==> #[trigger] self.slots@[i].key@ != #[trigger] self.slots@[j].key@
    }

    pub fn new() -> (t: Self)
        ensures
            t.wf(),
            t@ == Map::<Seq<char>, (V::V, u128)>::empty(),
    {
        Table { slots: Vec::new(), contents: Ghost(Map::empty()) }
    }

    fn find(&self, key: &String) -> (r: Option<usize>)
        requires
            self.wf(),
        ensures
            match r {
                Some(i) => i < self.slots@.len() && self.slots@[i as int].key@ == key@,
                None => !self@.contains_key(key@),
            },
    {
        let mut i: usize = 0;
        while i < self.slots.len()
            invariant
                self.wf(),
                i <= self.slots@.len(),
                forall|j: int| 0 <= j < i ==> self.slots@[j].key@ != key@,
            decreases self.slots@.len() - i,
        {
            if self.slots[i].key == *key {
                return Some(i);
            }
            i = i + 1;
        }
        None
    }

    /// The entry under `key`, expired or not.
    pub fn get(&self, key: &String) -> (r: Option<&Slot<V>>)
        requires
            self.wf(),
        ensures
            match r {
                Some(s) => self@.contains_key(key@) && self@[key@] == (s.value@, s.expires_at_ms)
                    && s.key@ == key@,
                None => !self@.contains_key(key@),
            },
    {
        match self.find(key) {
            Some(i) => {
                proof {
                    assert(self.contents@.contains_key(self.slots@[i as int].key@));
                }
                Some(&self.slots[i])
            },
            None => None,
        }
    }

    /// Sets the entry under `key`, replacing any earlier one.
    pub fn put(&mut self, key: String, value: V, expires_at_ms: u128)
        requires
            old(self).wf(),
        ensures
            final(self).wf(),
            final(self)@ == old(self)@.insert(key@, (value@, expires_at_ms)),
    {
        let ghost k = key@;
        let ghost entry = (value@, expires_at_ms);
        let found = self.find(&key);
        let ghost old_slots = self.slots@;
        match found {
            Some(i) => {
                self.slots.set(i, Slot { key, value, expires_at_ms });
                self.contents = Ghost(self.contents@.insert(k, entry));
                assert forall|a: int|
                    0 <= a < self.slots@.len() implies #[trigger] self.contents@.contains_key(
                        self.slots@[a].key@,
                    ) && self.contents@[self.slots@[a].key@] == (
                        self.slots@[a].value@,
                        self.slots@[a].expires_at_ms,
                    ) by {
                    if a != i {
                        assert(old_slots[a] == self.slots@[a]);
                        assert(old_slots[a].key@ != old_slots[i as int].key@);
                    }
                }
                assert forall|a: int, b: int|
                    0 <= a < self.slots@.len() && 0 <= b < self.slots@.len() && a != b
                    implies #[trigger] self.slots@[a].key@ != #[trigger] self.slots@[b].key@ by {
                    assert(old_slots[a].key@ != old_slots[b].key@);
                }
                assert forall|k2: Seq<char>| #[trigger] self.contents@.contains_key(k2) implies exists|
                    j: int,
                | 0 <= j < self.slots@.len() && #[trigger] self.slots@[j].key@ == k2 by {
                    if k2 == k {
                        assert(self.slots@[i as int].key@ == k2);
                    } else {
                        let j = choose|j: int| 0 <= j < old_slots.len() && #[trigger] old_slots[j].key@ == k2;
                        assert(self.slots@[j].key@ == k2);
                    }
                }
            },
            None => {
                self.slots.push(Slot { key, value, expires_at_ms });
                self.contents = Ghost(self.contents@.insert(k, entry));
                let ghost n = old_slots.len() as int;
                assert forall|k2: Seq<char>| #[trigger] self.contents@.contains_key(k2) implies exists|
                    j: int,
                | 0 <= j < self.slots@.len() && #[trigger] self.slots@[j].key@ == k2 by {
                    if k2 == k {
                        assert(self.slots@[n].key@ == k2);
                    } else {
                        let j = choose|j: int| 0 <= j < old_slots.len() && #[trigger] old_slots[j].key@ == k2;
                        assert(self.slots@[j].key@ == k2);
                    }
                }
                assert forall|a: int, b: int|
                    0 <= a < self.slots@.len() && 0 <= b < self.slots@.len() && a != b
                    implies #[trigger] self.slots@[a].key@ != #[trigger] self.slots@[b].key@ by {
                    if a == n {
                        assert(old_slots[b].key@ != k);
                    } else if b == n {
                        assert(old_slots[a].key@ != k);
                    }
                }
            },
        }
    }

    /// Removes the entry under `key` and hands it back.
    pub fn take(&mut self, key: &String) -> (r: Option<Slot<V>>)
        requires
            old(self).wf(),
        ensures
            final(self).wf(),
            final(self)@ == old(self)@.remove(key@),
            match r {
                Some(s) => old(self)@.contains_key(key@) && old(self)@[key@] == (
                    s.value@,
                    s.expires_at_ms,
                ) && s.key@ == key@,
                None => !old(self)@.contains_key(key@),
            },
    {
        match self.find(key) {
            Some(i) => {
                let ghost old_slots = self.slots@;
                proof {
                    assert(self.contents@.contains_key(old_slots[i as int].key@));
                }
                let s = self.slots.remove(i);
                self.contents = Ghost(self.contents@.remove(key@));
                assert forall|k2: Seq<char>| #[trigger] self.contents@.contains_key(k2) implies exists|
                    j: int,
                | 0 <= j < self.slots@.len() && #[trigger] self.slots@[j].key@ == k2 by {
                    let j = choose|j: int| 0 <= j < old_slots.len() && #[trigger] old_slots[j].key@ == k2;
                    if j < i {
                        assert(self.slots@[j].key@ == k2);
                    } else {
                        assert(j != i);
                        assert(self.slots@[j - 1].key@ == k2);
                    }
                }
                assert forall|a: int|
                    0 <= a < self.slots@.len() implies #[trigger] self.contents@.contains_key(
                        self.slots@[a].key@,
                    ) && self.contents@[self.slots@[a].key@] == (
                        self.slots@[a].value@,
                        self.slots@[a].expires_at_ms,
                    ) by {
                    if a < i {
                        assert(old_slots[a] == self.slots@[a]);
                    } else {
                        assert(old_slots[a + 1] == self.slots@[a]);
                    }
                }
                assert forall|a: int, b: int|
                    0 <= a < self.slots@.len() && 0 <= b < self.slots@.len() && a != b
                    implies #[trigger] self.slots@[a].key@ != #[trigger] self.slots@[b].key@ by {
                    let a0 = if a < i { a } else { a + 1 };
                    let b0 = if b < i { b } else { b + 1 };
                    assert(old_slots[a0] == self.slots@[a]);
                    assert(old_slots[b0] == self.slots@[b]);
                }
                Some(s)
            },
            None => {
                assert(self.contents@.remove(key@) =~= self.contents@);
                None
            },
        }
    }
}

} // verus!
