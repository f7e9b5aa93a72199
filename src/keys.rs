//! Key layout of a shared key-value store: every key is namespaced by a
//! configurable prefix.
use vstd::prelude::*;

verus! {

/// `prefix:kind:id`
pub open spec fn store_key(prefix: Seq<char>, kind: Seq<char>, id: Seq<char>) -> Seq<char> {
    prefix + ":"@ + kind + ":"@ + id
}

fn join_key(prefix: &str, kind: &str, id: &str) -> (r: String)
    ensures
        r@ == store_key(prefix@, kind@, id@),
{
    String::from_str(prefix).concat(":").concat(kind).concat(":").concat(id)
}

/// The key of a mailbox's metadata.
pub fn meta_key(prefix: &str, mailbox_id: &str) -> (r: String)
    ensures
        r@ == store_key(prefix@, "mailbox_meta"@, mailbox_id@),
{
    join_key(prefix, "mailbox_meta", mailbox_id)
}

/// The key of a mailbox's message list.
pub fn list_key(prefix: &str, mailbox_id: &str) -> (r: String)
    ensures
        r@ == store_key(prefix@, "mailbox_msgs"@, mailbox_id@),
{
    join_key(prefix, "mailbox_msgs", mailbox_id)
}

/// The key of a rendezvous mapping.
pub fn rendezvous_key(prefix: &str, token: &str) -> (r: String)
    ensures
        r@ == store_key(prefix@, "rendezvous"@, token@),
{
    join_key(prefix, "rendezvous", token)
}

} // verus!

verus! {

/// The key of a room.
pub fn room_key(prefix: &str, room_id: &str) -> (r: String)
    ensures
        r@ == store_key(prefix@, "room"@, room_id@),
{
    join_key(prefix, "room", room_id)
}

/// The key of a room's short-lived "joined" flag.
pub fn room_joined_key(prefix: &str, room_id: &str) -> (r: String)
    ensures
        r@ == store_key(prefix@, "room_joined"@, room_id@),
{
    join_key(prefix, "room_joined", room_id)
}

} // verus!
