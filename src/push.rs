//! The push hub: one broadcast channel per mailbox, created on first
//! subscription, over which newly appended messages fan out to every
//! current subscriber.
use vstd::prelude::*;
use tokio::sync::broadcast::{Receiver, Sender};

verus! {

/// tokio's broadcast::Sender, held as an opaque value.
#[verifier::external_type_specification]
#[verifier::external_body]
#[verifier::reject_recursive_types(T)]
pub struct ExBroadcastSender<T>(Sender<T>);

/// tokio's broadcast::Receiver, held as an opaque value.
#[verifier::external_type_specification]
#[verifier::external_body]
#[verifier::reject_recursive_types(T)]
pub struct ExBroadcastReceiver<T>(Receiver<T>);

/// How many messages each mailbox's channel holds for a slow subscriber
/// before that subscriber starts to miss the oldest.
pub const PUSH_BUFFER: usize = 100;

/// The messages that a channel has accepted from its sender, oldest first.
pub uninterp spec fn sent_of(tx: Sender<String>) -> Seq<Seq<char>>;

/// Which channel a sending half belongs to.
pub uninterp spec fn sender_channel(tx: Sender<String>) -> nat;

/// Which channel a receiving half belongs to.
pub uninterp spec fn receiver_channel(rx: Receiver<String>) -> nat;

/// Relies on tokio::sync::broadcast::channel, which panics on a capacity
/// of 0 or above half the largest `usize`: the sending half of a fresh
/// channel, which has accepted nothing yet.
#[verifier::external_body]
fn new_channel(capacity: usize) -> (r: Sender<String>)
    requires
        capacity > 0,
        capacity <= usize::MAX / 2,
    ensures
        sent_of(r) == Seq::<Seq<char>>::empty(),
{
    tokio::sync::broadcast::channel(capacity).0
}

/// Relies on broadcast::Sender::subscribe: a receiver of the same channel,
/// which yields every message sent after the call.
#[verifier::external_body]
fn subscribe_to(tx: &Sender<String>) -> (r: Receiver<String>)
    ensures
        receiver_channel(r) == sender_channel(*tx),
{
    tx.subscribe()
}

/// Relies on broadcast::Sender::send, which never blocks: the channel
/// accepts the message where it has a receiver, and is left as it was
/// (false) where it has none.
#[verifier::external_body]
fn send_to(tx: &mut Sender<String>, message: String) -> (r: bool)
    ensures
        sender_channel(*final(tx)) == sender_channel(*old(tx)),
        r ==> sent_of(*final(tx)) == sent_of(*old(tx)).push(message@),
        !r ==> sent_of(*final(tx)) == sent_of(*old(tx)),
{
    tx.send(message).is_ok()
}

struct Channel {
    mailbox_id: String,
    tx: Sender<String>,
}

/// The hub. Its value is the list of mailboxes that have a channel, in the
/// order the channels were created.
pub struct PushHub {
    channels: Vec<Channel>,
}

impl View for PushHub {
    type V = Seq<Seq<char>>;

    closed spec fn view(&self) -> Seq<Seq<char>> {
        self.channels@.map_values(|c: Channel| c.mailbox_id@)
    }
}

impl PushHub {
    /// What the channel of the `i`-th mailbox has accepted.
    pub closed spec fn sent(&self, i: int) -> Seq<Seq<char>> {
        sent_of(self.channels@[i].tx)
    }

    /// The channel of the `i`-th mailbox.
    pub closed spec fn channel(&self, i: int) -> nat {
        sender_channel(self.channels@[i].tx)
    }

    /// Each mailbox has one channel at most.
    pub closed spec fn wf(&self) -> bool {
        forall|i: int, j: int|
            0 <= i < self@.len() && 0 <= j < self@.len() && i != j ==> #[trigger] self@[i] != #[trigger] self@[j]
    }

    pub fn new() -> (r: Self)
        ensures
            r.wf(),
            r@.len() == 0,
    {
        PushHub { channels: Vec::new() }
    }

    fn find(&self, mailbox_id: &String) -> (r: Option<usize>)
        ensures
            match r {
                Some(i) => i < self@.len() && self@[i as int] == mailbox_id@,
                None => !self@.contains(mailbox_id@),
            },
    {
        let mut i: usize = 0;
        while i < self.channels.len()
            invariant
                i <= self.channels@.len(),
                forall|j: int| 0 <= j < i ==> self@[j] != mailbox_id@,
            decreases self.channels@.len() - i,
        {
            if self.channels[i].mailbox_id == *mailbox_id {
                return Some(i);
            }
            i = i + 1;
        }
        None
    }

    /// A fresh receiver of the mailbox's channel, which is created (with
    /// nothing sent yet) where the mailbox has none. Other channels are
    /// kept as they were.
    pub fn subscribe(&mut self, mailbox_id: &String) -> (r: Receiver<String>)
        requires
            old(self).wf(),
        ensures
            final(self).wf(),
            final(self)@ == if old(self)@.contains(mailbox_id@) {
                old(self)@
            } else {
                old(self)@.push(mailbox_id@)
            },
            forall|i: int|
                0 <= i < old(self)@.len() ==> final(self).sent(i) == old(self).sent(i) && final(self).channel(i)
                    == old(self).channel(i),
            !old(self)@.contains(mailbox_id@) ==> final(self).sent(old(self)@.len() as int)
                == Seq::<Seq<char>>::empty(),
            forall|i: int|
                0 <= i < final(self)@.len() && final(self)@[i] == mailbox_id@ ==> receiver_channel(r)
                    == final(self).channel(i),
    {
        match self.find(mailbox_id) {
            Some(i) => {
                let rx = subscribe_to(&self.channels[i].tx);
                proof {
                    assert forall|j: int|
                        0 <= j < self@.len() && self@[j] == mailbox_id@ implies receiver_channel(rx)
                        == self.channel(j) by {
                        if j != i {
                            assert(self@[j] == self@[i as int]);
                        }
                    }
                }
                rx
            },
            None => {
                let tx = new_channel(PUSH_BUFFER);
                let rx = subscribe_to(&tx);
                let ghost before = self@;
                let ghost old_channels = self.channels@;
                self.channels.push(Channel { mailbox_id: mailbox_id.clone(), tx });
                assert(self@ =~= before.push(mailbox_id@));
                proof {
                    assert forall|j: int|
                        0 <= j < self@.len() && self@[j] == mailbox_id@ implies receiver_channel(rx)
                        == self.channel(j) by {
                        if j < before.len() {
                            assert(before[j] == self@[j]);
                        }
                    }
                    assert forall|a: int, b: int|
                        0 <= a < self@.len() && 0 <= b < self@.len() && a != b implies #[trigger] self@[a]
                        != #[trigger] self@[b] by {
                        if a < before.len() && b < before.len() {
                            assert(before[a] == self@[a] && before[b] == self@[b]);
                        } else if a < before.len() {
                            assert(before[a] == self@[a]);
                        } else {
                            assert(before[b] == self@[b]);
                        }
                    }
                }
                rx
            },
        }
    }

    /// Hands a message to the current subscribers of a mailbox, without
    /// waiting. The mailbox's channel accepts the message where it has a
    /// subscriber (true); nothing happens where the mailbox has no channel.
    /// Every other channel is left as it was.
    pub fn notify(&mut self, mailbox_id: &String, message: String) -> (r: bool)
        requires
            old(self).wf(),
        ensures
            final(self).wf(),
            final(self)@ == old(self)@,
            !old(self)@.contains(mailbox_id@) ==> !r,
            forall|i: int|
                0 <= i < old(self)@.len() ==> final(self).channel(i) == old(self).channel(i),
            forall|i: int|
                0 <= i < old(self)@.len() && old(self)@[i] != mailbox_id@ ==> final(self).sent(i)
                    == old(self).sent(i),
            forall|i: int|
                0 <= i < old(self)@.len() && old(self)@[i] == mailbox_id@ ==> (if r {
                    final(self).sent(i) == old(self).sent(i).push(message@)
                } else {
                    final(self).sent(i) == old(self).sent(i)
                }),
    {
        match self.find(mailbox_id) {
            Some(i) => {
                let ghost before = self.channels@;
                let mut ch = self.channels.remove(i);
                let r = send_to(&mut ch.tx, message);
                self.channels.insert(i, ch);
                proof {
                    assert forall|j: int| 0 <= j < before.len() && j != i implies #[trigger] self.channels@[j]
                        == before[j] by {}
                    assert(self@ =~= before.map_values(|c: Channel| c.mailbox_id@));
                    assert forall|j: int|
                        0 <= j < before.len() && before[j].mailbox_id@ == mailbox_id@ implies j == i by {
                        if j != i {
                            assert(self@[j] == self@[i as int]);
                        }
                    }
                }
                r
            },
            None => false,
        }
    }
}

} // verus!
