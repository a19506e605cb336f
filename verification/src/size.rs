//! Extents, tagged with a unit.

use core::marker::PhantomData;
use vstd::prelude::*;

verus! {

/// A 2d size tagged with a unit.
#[derive(Debug)]
pub struct Size2D<T, U> {
    pub width: T,
    pub height: T,
    pub _unit: PhantomData<U>,
}

/// A 3d size tagged with a unit.
#[derive(Debug)]
pub struct Size3D<T, U> {
    pub width: T,
    pub height: T,
    pub depth: T,
    pub _unit: PhantomData<U>,
}

impl<T: Copy, U> Copy for Size2D<T, U> {}

impl<T: Clone, U> Clone for Size2D<T, U> {
    fn clone(&self) -> (r: Self)
        ensures
            cloned(self.width, r.width),
            cloned(self.height, r.height),
    {
        Size2D { width: self.width.clone(), height: self.height.clone(), _unit: PhantomData }
    }
}

impl<T: Copy, U> Copy for Size3D<T, U> {}

impl<T: Clone, U> Clone for Size3D<T, U> {
    fn clone(&self) -> (r: Self)
        ensures
            cloned(self.width, r.width),
            cloned(self.height, r.height),
            cloned(self.depth, r.depth),
    {
        Size3D {
            width: self.width.clone(),
            height: self.height.clone(),
            depth: self.depth.clone(),
            _unit: PhantomData,
        }
    }
}

impl<T, U> Size2D<T, U> {
    /// Constructor taking the width and the height.
    pub fn new(width: T, height: T) -> (r: Self)
        ensures
            r.width == width,
            r.height == height,
    {
        Size2D { width, height, _unit: PhantomData }
    }
}

impl<T, U> Size3D<T, U> {
    /// Constructor taking the width, the height and the depth.
    pub fn new(width: T, height: T, depth: T) -> (r: Self)
        ensures
            r.width == width,
            r.height == height,
            r.depth == depth,
    {
        Size3D { width, height, depth, _unit: PhantomData }
    }
}

} // verus!
