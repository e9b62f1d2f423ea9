//! Views of optional values and of sequences, taken part by part.

use vstd::prelude::*;

verus! {

/// The view of an optional value.
pub open spec fn view_of<T: View>(value: Option<T>) -> Option<T::V> {
    match value {
        Some(t) => Some(t@),
        None => None,
    }
}

/// The views of `values`, one by one.
pub open spec fn views_of<T: View>(values: Seq<T>) -> Seq<T::V> {
    values.map_values(|t: T| t@)
}

} // verus!
