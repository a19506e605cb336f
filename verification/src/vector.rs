//! Displacement vectors, tagged with a unit.

use crate::point::{point2, point3, Point2D, Point3D};
use core::marker::PhantomData;
use vstd::prelude::*;

verus! {

/// A 2d vector tagged with a unit.
#[derive(Debug)]
pub struct Vector2D<T, U> {
    pub x: T,
    pub y: T,
    pub _unit: PhantomData<U>,
}

/// A 3d vector tagged with a unit.
#[derive(Debug)]
pub struct Vector3D<T, U> {
    pub x: T,
    pub y: T,
    pub z: T,
    pub _unit: PhantomData<U>,
}

impl<T: Copy, U> Copy for Vector2D<T, U> {}

impl<T: Clone, U> Clone for Vector2D<T, U> {
    fn clone(&self) -> (r: Self)
        ensures
            cloned(self.x, r.x),
            cloned(self.y, r.y),
    {
        Vector2D { x: self.x.clone(), y: self.y.clone(), _unit: PhantomData }
    }
}

impl<T: Copy, U> Copy for Vector3D<T, U> {}

impl<T: Clone, U> Clone for Vector3D<T, U> {
    fn clone(&self) -> (r: Self)
        ensures
            cloned(self.x, r.x),
            cloned(self.y, r.y),
            cloned(self.z, r.z),
    {
        Vector3D { x: self.x.clone(), y: self.y.clone(), z: self.z.clone(), _unit: PhantomData }
    }
}

impl<T, U> Vector2D<T, U> {
    /// Constructor taking scalar values directly.
    pub fn new(x: T, y: T) -> (r: Self)
        ensures
            r.x == x,
            r.y == y,
    {
        Vector2D { x, y, _unit: PhantomData }
    }
}

impl<T: Copy, U> Vector2D<T, U> {
    /// Cast this vector into a point.
    ///
    /// Equivalent to adding this vector to the origin.
    #[verifier::allow_in_spec]
    pub fn to_point(&self) -> Point2D<T, U>
        returns
            (Point2D { x: self.x, y: self.y, _unit: PhantomData::<U> }),
    {
        point2(self.x, self.y)
    }
}

impl<T, U> Vector3D<T, U> {
    /// Constructor taking scalar values directly.
    pub fn new(x: T, y: T, z: T) -> (r: Self)
        ensures
            r.x == x,
            r.y == y,
            r.z == z,
    {
        Vector3D { x, y, z, _unit: PhantomData }
    }
}

impl<T: Copy, U> Vector3D<T, U> {
    /// Cast this vector into a point.
    ///
    /// Equivalent to adding this vector to the origin.
    #[verifier::allow_in_spec]
    pub fn to_point(&self) -> Point3D<T, U>
        returns
            (Point3D { x: self.x, y: self.y, z: self.z, _unit: PhantomData::<U> }),
    {
        point3(self.x, self.y, self.z)
    }
}

/// Shorthand for `Vector2D::new(x, y)`.
pub fn vec2<T, U>(x: T, y: T) -> (r: Vector2D<T, U>)
    ensures
        r.x == x,
        r.y == y,
{
    Vector2D { x, y, _unit: PhantomData }
}

/// Shorthand for `Vector3D::new(x, y, z)`.
pub fn vec3<T, U>(x: T, y: T, z: T) -> (r: Vector3D<T, U>)
    ensures
        r.x == x,
        r.y == y,
        r.z == z,
{
    Vector3D { x, y, z, _unit: PhantomData }
}

} // verus!
