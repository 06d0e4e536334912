//! Small spec functions that the contracts of the other modules share.

use vstd::prelude::*;

verus! {

/// The view of an optional value.
pub open spec fn optional<T: View>(value: Option<T>) -> Option<T::V> {
    match value {
        Some(inner) => Some(inner@),
        None => None,
    }
}

} // verus!
