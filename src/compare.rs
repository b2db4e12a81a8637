//! Equality and order of handles.
//!
//! Two temporal values are equal when their variants match and the engine's
//! deep comparison finds them equal. They are ordered by their start time alone,
//! so two different values that start at the same time compare as equal in
//! order though not in equality. Boxes are ordered by the engine's own
//! comparison, which answers with the sign of an integer.
use std::cmp::Ordering;
use vstd::prelude::*;

use crate::kind::Type;

verus! {

/// The order of two integers.
pub open spec fn order_of(a: int, b: int) -> Ordering {
    if a < b {
        Ordering::Less
    } else if a == b {
        Ordering::Equal
    } else {
        Ordering::Greater
    }
}

/// Whether two temporal values are equal, given their variants and, where the
/// variants match, what the engine's deep comparison answered.
pub fn temporal_eq(a: Type, b: Type, deep_equal: bool) -> (r: bool)
    ensures
        r == (a == b && deep_equal),
{
    a == b && deep_equal
}

/// The order of two temporal values, from their start times.
pub fn order_by_start(a_start: i64, b_start: i64) -> (r: Ordering)
    ensures
        r == order_of(a_start as int, b_start as int),
{
    if a_start < b_start {
        Ordering::Less
    } else if a_start == b_start {
        Ordering::Equal
    } else {
        Ordering::Greater
    }
}

/// The order that the engine's comparison answered with: the sign of `c`.
pub fn ordering_of_cmp(c: i32) -> (r: Ordering)
    ensures
        r == order_of(c as int, 0),
{
    if c < 0 {
        Ordering::Less
    } else if c == 0 {
        Ordering::Equal
    } else {
        Ordering::Greater
    }
}

} // verus!
