//! Partial updates: a request names the fields it changes, and every field
//! it leaves out keeps its value.
use vstd::prelude::*;

verus! {

/// The value of a field after an update that may set it.
pub open spec fn patched<T>(current: T, update: Option<T>) -> T {
    match update {
        Some(v) => v,
        None => current,
    }
}

/// Sets a field when the update carries a value for it.
pub fn patch<T>(current: T, update: Option<T>) -> (r: T)
    ensures
        r == patched(current, update),
{
    match update {
        Some(v) => v,
        None => current,
    }
}

/// Sets an optional field when the update carries a value for it; an
/// update never clears it.
pub fn patch_optional<T>(current: Option<T>, update: Option<T>) -> (r: Option<T>)
    ensures
        r == match update {
            Some(v) => Some(v),
            None => current,
        },
        current is Some ==> r is Some,
{
    match update {
        Some(v) => Some(v),
        None => current,
    }
}

/// An update that carries no value leaves a field as it was, and an update
/// that carries one sets it; applying the same update twice is applying it
/// once.
pub proof fn lemma_patch_laws<T>(current: T, value: T)
    ensures
        patched(current, None::<T>) == current,
        patched(current, Some(value)) == value,
        patched(patched(current, Some(value)), Some(value)) == patched(current, Some(value)),
{
}

} // verus!
