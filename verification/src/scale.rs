//! Scale factors between two units.

use core::marker::PhantomData;
use vstd::prelude::*;

verus! {

/// A scaling factor between two different units of measurement: one `Src`
/// is `0` `Dst`.
#[derive(Debug)]
pub struct Scale<T, Src, Dst>(pub T, pub PhantomData<(Src, Dst)>);

impl<T: Copy, Src, Dst> Copy for Scale<T, Src, Dst> {}

impl<T: Clone, Src, Dst> Clone for Scale<T, Src, Dst> {
    fn clone(&self) -> (r: Self)
        ensures
            cloned(self.0, r.0),
    {
        Scale(self.0.clone(), PhantomData)
    }
}

impl<T, Src, Dst> Scale<T, Src, Dst> {
    /// Creates the scale factor `x`.
    pub fn new(x: T) -> (r: Self)
        ensures
            r.0 == x,
    {
        Scale(x, PhantomData)
    }
}

impl<T: Copy, Src, Dst> Scale<T, Src, Dst> {
    /// Returns the scale factor.
    pub fn get(&self) -> (r: T)
        ensures
            r == self.0,
    {
        self.0
    }
}

} // verus!
