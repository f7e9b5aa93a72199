//! A small message buffer behind the `greet` command: greetings are kept
//! newest first, at most ten, and two special names read them back.
use vstd::prelude::*;
use crate::textops::text_eq;

verus! {

/// How many greetings are kept.
pub const GREETING_CAPACITY: usize = 10;

/// The items joined by "|||".
pub open spec fn joined(items: Seq<Seq<char>>) -> Seq<char>
    decreases items.len(),
{
    if items.len() == 0 {
        Seq::empty()
    } else if items.len() == 1 {
        items[0]
    } else {
        joined(items.drop_last()) + "|||"@ + items.last()
    }
}

pub open spec fn strings_view(v: Seq<String>) -> Seq<Seq<char>> {
    v.map_values(|s: String| s@)
}

/// Greetings, newest first.
pub struct GreetingBuffer {
    items: Vec<String>,
}

impl View for GreetingBuffer {
    type V = Seq<Seq<char>>;

    closed spec fn view(&self) -> Seq<Seq<char>> {
        strings_view(self.items@)
    }
}

impl GreetingBuffer {
    pub fn new() -> (r: Self)
        ensures
            r@.len() == 0,
    {
        GreetingBuffer { items: Vec::new() }
    }

    /// "__consume__" takes the newest greeting out (empty text if none);
    /// "__list__" gives all of them joined by "|||"; any other name is
    /// greeted with `name!`, which goes in front, the oldest dropping out
    /// beyond ten.
    pub fn greet(&mut self, name: String) -> (r: String)
        ensures
            name@ == "__consume__"@ ==> if old(self)@.len() == 0 {
                r@.len() == 0 && final(self)@ == old(self)@
            } else {
                r@ == old(self)@[0] && final(self)@ == old(self)@.drop_first()
            },
            name@ == "__list__"@ ==> r@ == joined(old(self)@) && final(self)@ == old(self)@,
            name@ != "__consume__"@ && name@ != "__list__"@ ==> {
                &&& r@ == name@ + "!"@
                &&& final(self)@ == seq![r@].add(old(self)@).take(
                    if old(self)@.len() + 1 > GREETING_CAPACITY {
                        GREETING_CAPACITY as int
                    } else {
                        (old(self)@.len() + 1) as int
                    },
                )
            },
    {
        proof {
            reveal_strlit("__consume__");
            reveal_strlit("__list__");
            assert("__consume__"@.len() != "__list__"@.len());
        }
        if text_eq(name.as_str(), "__consume__") {
            if self.items.len() == 0 {
                return String::new();
            }
            let ghost before = self@;
            let first = self.items.remove(0);
            assert(self@ =~= before.drop_first());
            return first;
        }
        if text_eq(name.as_str(), "__list__") {
            return self.list();
        }
        let greeting = name.concat("!");
        let ghost before = self@;
        self.items.insert(0, greeting.clone());
        assert(self@ =~= seq![greeting@].add(before));
        if self.items.len() > GREETING_CAPACITY {
            self.items.truncate(GREETING_CAPACITY);
        }
        assert(self@ =~= seq![greeting@].add(before).take(
            if before.len() + 1 > GREETING_CAPACITY {
                GREETING_CAPACITY as int
            } else {
                (before.len() + 1) as int
            },
        ));
        greeting
    }

    fn list(&self) -> (r: String)
        ensures
            r@ == joined(self@),
    {
        let mut out = String::new();
        let mut i: usize = 0;
        while i < self.items.len()
            invariant
                i <= self.items@.len(),
                out@ == joined(self@.subrange(0, i as int)),
            decreases self.items@.len() - i,
        {
            let ghost prefix = self@.subrange(0, i + 1);
            assert(prefix.drop_last() =~= self@.subrange(0, i as int));
            if i == 0 {
                out = self.items[0].clone();
            } else {
                out = out.concat("|||").concat(self.items[i].as_str());
            }
            i = i + 1;
        }
        assert(self@.subrange(0, self@.len() as int) =~= self@);
        out
    }
}

} // verus!
