//! The `$lookup` stage: each item gets its own copy of a collection, which an
//! optional scope function may narrow, and which is then stored in a field of
//! the item or handed to a callback.
use vstd::prelude::*;

use crate::js_array::{JsArray, LocalArrayExtension};

verus! {

/// Where the copy of the collection goes.
pub enum LookupTarget {
    /// Into the field of the item that the second argument names.
    Field,
    /// To the function that the second argument is, called with the copy as
    /// `this` and the item as its argument.
    Callback,
}

/// How a `$lookup` call is laid out.
pub struct LookupPlan {
    /// A scope function stands third, and runs on each copy first.
    pub scope: bool,
    pub target: LookupTarget,
}

/// A third argument is the scope function; a string second argument names
/// the field, anything else there is taken as the callback.
pub fn lookup_plan(count: i32, destiny_is_string: bool) -> (p: LookupPlan)
    ensures
        p.scope == (count == 3),
        p.target == (if destiny_is_string {
            LookupTarget::Field
        } else {
            LookupTarget::Callback
        }),
{
    LookupPlan {
        scope: count == 3,
        target: if destiny_is_string {
            LookupTarget::Field
        } else {
            LookupTarget::Callback
        },
    }
}

/// The fresh copy of the collection that one item gets.
pub fn lookup_copy<T: Copy>(collection: &JsArray<T>) -> (copy: JsArray<T>)
    ensures
        copy@ == collection@,
{
    let mut copy = JsArray::new();
    copy.copy(collection);
    assert(copy@ =~= collection@);
    copy
}

} // verus!
