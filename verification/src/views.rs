//! The mathematical values of lists and of optional values.

use vstd::prelude::*;

verus! {

/// The mathematical values of `values`, one by one.
pub open spec fn views<T: View>(values: Seq<T>) -> Seq<T::V> {
    values.map_values(|value: T| value@)
}

/// The mathematical value of an optional value.
pub open spec fn option_view<T: View>(value: Option<T>) -> Option<T::V> {
    match value {
        Some(value) => Some(value@),
        None => None,
    }
}

/// The mathematical values of an optional list.
pub open spec fn option_views<T: View>(values: Option<Vec<T>>) -> Option<Seq<T::V>> {
    match values {
        Some(values) => Some(views(values@)),
        None => None,
    }
}

} // verus!
