//! Approximate equality.

use vstd::prelude::*;

verus! {

/// Approximate equality, up to an epsilon of type `Eps`.
pub trait ApproxEq<Eps> {
    /// Returns the default epsilon.
    fn approx_epsilon() -> Eps;

    /// Returns `true` if this value is approximately equal to `other`, using the
    /// default epsilon.
    fn approx_eq(&self, other: &Self) -> bool;

    /// Returns `true` if this value is approximately equal to `other`, using the
    /// given epsilon.
    fn approx_eq_eps(&self, other: &Self, approx_epsilon: &Eps) -> bool;
}

} // verus!
