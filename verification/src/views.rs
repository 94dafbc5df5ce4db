use vstd::prelude::*;

verus! {

/// The view of an optional value: the view of what it holds, or nothing.
pub open spec fn viewed<T: View>(value: Option<T>) -> Option<T::V> {
    match value {
        Some(inner) => Some(inner@),
        None => None,
    }
}

} // verus!
