//! Helpers that take records, options and vectors to their mathematical content.

use vstd::prelude::*;

verus! {

/// An optional integer as a mathematical integer.
pub open spec fn optional_int(v: Option<i32>) -> Option<int> {
    match v {
        Some(v) => Some(v as int),
        None => None,
    }
}

/// An optional long integer as a mathematical integer.
pub open spec fn optional_long(v: Option<i64>) -> Option<int> {
    match v {
        Some(v) => Some(v as int),
        None => None,
    }
}

/// The content of an optional record.
pub open spec fn optional_view<T: View>(v: Option<T>) -> Option<T::V> {
    match v {
        Some(v) => Some(v@),
        None => None,
    }
}

/// The contents of a sequence of records, in order.
pub open spec fn views_of<T: View>(v: Seq<T>) -> Seq<T::V> {
    Seq::new(v.len(), |k: int| v[k]@)
}

/// Pushing a record pushes its content.
pub proof fn lemma_views_push<T: View>(v: Seq<T>, x: T)
    ensures
        views_of(v.push(x)) == views_of(v).push(x@),
{
    assert(views_of(v.push(x)) =~= views_of(v).push(x@));
}

} // verus!
