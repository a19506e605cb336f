//! One-dimensional lengths, tagged with a unit.

use core::marker::PhantomData;
use vstd::prelude::*;

verus! {

/// A one-dimensional distance, with value `0` and unit `Unit`.
#[derive(Debug)]
pub struct Length<T, Unit>(pub T, pub PhantomData<Unit>);

impl<T: Copy, Unit> Copy for Length<T, Unit> {}

impl<T: Clone, Unit> Clone for Length<T, Unit> {
    fn clone(&self) -> (r: Self)
        ensures
            cloned(self.0, r.0),
    {
        Length(self.0.clone(), PhantomData)
    }
}

impl<T, Unit> Length<T, Unit> {
    /// Tags a scalar value with a unit.
    pub fn new(x: T) -> (r: Self)
        ensures
            r.0 == x,
    {
        Length(x, PhantomData)
    }
}

} // verus!
