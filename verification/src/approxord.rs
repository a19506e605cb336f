//! Minimum and maximum over partially ordered values.

use vstd::prelude::*;
use vstd::std_specs::cmp::{PartialOrdIs, PartialOrdSpec};

verus! {

/// `a` and `b` are ordered one way or the other (for floats: neither is NaN).
pub open spec fn comparable<T: PartialOrd>(a: T, b: T) -> bool {
    a.partial_cmp_spec(&b) is Some
}

/// The value `min` picks: `x` when `x <= y`, otherwise `y`.
pub open spec fn min_spec<T: PartialOrd>(x: T, y: T) -> T {
    if x.is_le(&y) {
        x
    } else {
        y
    }
}

/// The value `max` picks: `x` when `x >= y`, otherwise `y`.
pub open spec fn max_spec<T: PartialOrd>(x: T, y: T) -> T {
    if x.is_ge(&y) {
        x
    } else {
        y
    }
}

/// Returns `x` if `x <= y`, and `y` otherwise (so `y` when the two are unordered).
pub fn min<T: PartialOrd>(x: T, y: T) -> (r: T)
    ensures
        r == x || r == y,
        T::obeys_partial_cmp_spec() ==> r == min_spec(x, y),
{
    if x <= y {
        x
    } else {
        y
    }
}

/// Returns `x` if `x >= y`, and `y` otherwise (so `y` when the two are unordered).
pub fn max<T: PartialOrd>(x: T, y: T) -> (r: T)
    ensures
        r == x || r == y,
        T::obeys_partial_cmp_spec() ==> r == max_spec(x, y),
{
    if x >= y {
        x
    } else {
        y
    }
}

} // verus!
