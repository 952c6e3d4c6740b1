//! The stages that read the output array without running JavaScript:
//! `$count`, `$first` and `$last`.
use vstd::prelude::*;

use crate::js_array::JsArray;

verus! {

/// `$count`: the number of slots of the output array.
pub fn count<T>(out: &JsArray<T>) -> (n: usize)
    ensures
        n == out@.len(),
{
    out.length()
}

/// `$first`: the first slot, `None` when it is empty or there is none.
pub fn first<T: Copy>(out: &JsArray<T>) -> (item: Option<T>)
    ensures
        item == (if out@.len() > 0 {
            out@[0]
        } else {
            None
        }),
{
    out.get_index(0)
}

/// `$last`: the last slot of a non-empty output array.
pub fn last<T: Copy>(out: &JsArray<T>) -> (item: Option<T>)
    requires
        out@.len() > 0,
    ensures
        item == out@[out@.len() - 1],
{
    out.get_index(out.length() - 1)
}

} // verus!
