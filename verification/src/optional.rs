//! Arithmetic on integers that may be absent.

use vstd::prelude::*;

verus! {

/// The successor of an optional integer: absent stays absent, a present
/// value grows by one.
pub open spec fn successor(x: Option<int>) -> Option<int> {
    match x {
        None => None,
        Some(i) => Some(i + 1),
    }
}

/// The mathematical integer held by an optional `i32`, if any.
pub open spec fn as_int(x: Option<i32>) -> Option<int> {
    match x {
        None => None,
        Some(i) => Some(i as int),
    }
}

/// Adds one to the value inside `x`, leaving an absent value absent.
///
/// The largest `i32` has no successor in `i32`, so it is not accepted.
pub fn plus_one(x: Option<i32>) -> (next: Option<i32>)
    requires
        x != Some(i32::MAX),
    ensures
        as_int(next) == successor(as_int(x)),
{
    match x {
        None => None,
        Some(i) => Some(i + 1),
    }
}

} // verus!
