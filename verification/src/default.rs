//! The geometric types with the unit `UnknownUnit`.

use crate::UnknownUnit;
use vstd::prelude::*;

verus! {

pub type Point2D<T> = crate::point::Point2D<T, UnknownUnit>;

pub type Point3D<T> = crate::point::Point3D<T, UnknownUnit>;

pub type Vector2D<T> = crate::vector::Vector2D<T, UnknownUnit>;

pub type Vector3D<T> = crate::vector::Vector3D<T, UnknownUnit>;

pub type Size2D<T> = crate::size::Size2D<T, UnknownUnit>;

pub type Size3D<T> = crate::size::Size3D<T, UnknownUnit>;

pub type Length<T> = crate::length::Length<T, UnknownUnit>;

} // verus!
