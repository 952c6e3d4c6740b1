//! The layout of the key-value store: documents live under
//! `collection:<collection>:<id>`, and the scripts of the engine slots under
//! keys of their own.
use vstd::prelude::*;

use crate::query_engine_manager::Slot;

verus! {

/// The key of document `id` of `collection`.
pub fn collection_key(collection: &str, id: &str) -> (k: String)
    ensures
        k@ == "collection:"@ + collection@ + ":"@ + id@,
{
    String::from_str("collection:").concat(collection).concat(":").concat(id)
}

/// The prefix under which the documents of `collection` are listed.
pub fn collection_prefix(collection: &str) -> (k: String)
    ensures
        k@ == "collection:"@ + collection@,
{
    String::from_str("collection:").concat(collection)
}

/// The key under which the script of a slot is stored.
pub fn script_key(slot: Slot) -> (k: String)
    ensures
        slot == Slot::Production ==> k@ == "script"@,
        slot == Slot::Canary ==> k@ == "script:canary"@,
{
    match slot {
        Slot::Production => String::from_str("script"),
        Slot::Canary => String::from_str("script:canary"),
    }
}

/// Every document's key lies under the prefix of its collection, so listing
/// the prefix finds it.
pub proof fn law_key_under_prefix(collection: Seq<char>, id: Seq<char>)
    ensures
        ("collection:"@ + collection).is_prefix_of("collection:"@ + collection + ":"@ + id),
{
    let p = "collection:"@ + collection;
    let k = p + ":"@ + id;
    assert(k.subrange(0, p.len() as int) =~= p);
}

} // verus!
