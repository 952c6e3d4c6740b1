//! The checks that every stage makes on how it was called.
use vstd::prelude::*;

verus! {

/// The array a stage works on is the `this` of its call: `this` is `Some`
/// when it is an array.
pub fn out_array<T>(this: Option<T>) -> (r: Result<T, String>)
    ensures
        this matches Some(a) ==> r == Ok::<T, String>(a),
        this is None ==> (r matches Err(m) && m@ == "failed to found a context"@),
{
    match this {
        Some(a) => Ok(a),
        None => Err(String::from_str("failed to found a context")),
    }
}

/// A function of the script by name: the property found under `name`, or an
/// error when it is `undefined` (`None`).
pub fn get_function<T>(name: &str, property: Option<T>) -> (r: Result<T, String>)
    ensures
        property matches Some(f) ==> r == Ok::<T, String>(f),
        property is None ==> (r matches Err(m) && m@ == "could not find function "@ + name@),
{
    match property {
        Some(f) => Ok(f),
        None => Err(String::from_str("could not find function ").concat(name)),
    }
}

/// The error when the name of a function cannot be made a JavaScript string.
pub fn name_error(name: &str) -> (m: String)
    ensures
        m@ == "can't create string "@ + name@,
{
    String::from_str("can't create string ").concat(name)
}

} // verus!
