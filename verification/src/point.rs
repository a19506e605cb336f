//! Points in two and three dimensions, tagged with a unit.

use crate::approxeq::ApproxEq;
use crate::approxord::{max, max_spec, min, min_spec};
use crate::length::Length;
use crate::num::{lerp_scalar, lerp_scalar_req, Ceil, Floor, One, Round, Zero};
use crate::scale::Scale;
use crate::size::{Size2D, Size3D};
use crate::vector::{vec2, vec3, Vector2D, Vector3D};
use crate::UnknownUnit;
use core::hash::{Hash, Hasher};
use core::marker::PhantomData;
use core::ops::{Add, AddAssign, Div, DivAssign, Mul, MulAssign, Sub, SubAssign};
use num_traits::NumCast;
use vstd::prelude::*;
use vstd::std_specs::cmp::{PartialEqSpec, PartialOrdSpec};
use vstd::std_specs::ops::{AddSpec, DivSpec, MulSpec, SubSpec};

verus! {

/// A 2d Point tagged with a unit.
#[derive(Debug)]
pub struct Point2D<T, U> {
    pub x: T,
    pub y: T,
    pub _unit: PhantomData<U>,
}

impl<T: Copy, U> Copy for Point2D<T, U> {}

/// Feeds `value` into `state` with std's `Hash::hash`. Nothing is stated of the
/// hasher's state afterwards: the trait does not fix what an impl writes.
#[verifier::external_body]
fn hash_into<V: Hash, H: Hasher>(value: &V, state: &mut H) {
    value.hash(state)
}

/// `state` is a hasher that `Hash::hash` fed `value` into: it held `*state` before
/// and `*final(state)` after.
pub closed spec fn hash_call<V: Hash, H: Hasher>(value: &V, state: &mut H) -> bool {
    call_ensures(hash_into::<V, H>, (value, state), ())
}

impl<T: Hash, U> Hash for Point2D<T, U> {
    /// Feeds `x`, then `y`, into the hasher.
    fn hash<H: Hasher>(&self, h: &mut H)
        ensures
            exists|m1: &mut H, m2: &mut H|
                {
                    &&& *m1 == *old(h) && hash_call(&self.x, m1)
                    &&& *m2 == *final(m1) && hash_call(&self.y, m2)
                    &&& *final(m2) == *final(h)
                },
    {
        hash_into(&self.x, h);
        hash_into(&self.y, h);
        proof {
            assert(exists|m1: &mut H, m2: &mut H|
                {
                    &&& *m1 == *old(h) && #[trigger] call_ensures(
                        hash_into::<T, H>,
                        (&self.x, m1),
                        (),
                    )
                    &&& *m2 == *final(m1) && #[trigger] call_ensures(
                        hash_into::<T, H>,
                        (&self.y, m2),
                        (),
                    )
                    &&& *final(m2) == *final(h)
                });
            let (m1, m2) = choose|m1: &mut H, m2: &mut H|
                {
                    &&& *m1 == *old(h) && #[trigger] call_ensures(
                        hash_into::<T, H>,
                        (&self.x, m1),
                        (),
                    )
                    &&& *m2 == *final(m1) && #[trigger] call_ensures(
                        hash_into::<T, H>,
                        (&self.y, m2),
                        (),
                    )
                    &&& *final(m2) == *final(h)
                };
            assert(hash_call(&self.x, m1) && hash_call(&self.y, m2));
        }
    }
}

impl<T: Clone, U> Clone for Point2D<T, U> {
    fn clone(&self) -> (r: Self)
        ensures
            cloned(self.x, r.x),
            cloned(self.y, r.y),
    {
        Point2D { x: self.x.clone(), y: self.y.clone(), _unit: PhantomData }
    }
}

impl<T: Eq, U> Eq for Point2D<T, U> {}

impl<T: PartialEq, U> PartialEq for Point2D<T, U> {
    /// `true` exactly when both coordinates are equal; `y` is compared only where
    /// `x` is.
    fn eq(&self, other: &Self) -> (r: bool)
        ensures
            r ==> call_ensures(T::eq, (&self.x, &other.x), true) && call_ensures(
                T::eq,
                (&self.y, &other.y),
                true,
            ),
            !r ==> call_ensures(T::eq, (&self.x, &other.x), false) || call_ensures(
                T::eq,
                (&self.y, &other.y),
                false,
            ),
    {
        self.x == other.x && self.y == other.y
    }
}

impl<T: PartialEq, U> vstd::std_specs::cmp::PartialEqSpecImpl for Point2D<T, U> {
    open spec fn obeys_eq_spec() -> bool {
        T::obeys_eq_spec()
    }

    open spec fn eq_spec(&self, other: &Self) -> bool {
        self.x.eq_spec(&other.x) && self.y.eq_spec(&other.y)
    }
}

impl<T: Default, U> Default for Point2D<T, U> {
    fn default() -> (r: Self)
        ensures
            call_ensures(T::default, (), r.x),
            call_ensures(T::default, (), r.y),
    {
        Point2D::new(T::default(), T::default())
    }
}

impl<T, U> Point2D<T, U> {
    /// Constructor, setting all components to zero.
    #[verifier::allow_in_spec]
    pub fn origin() -> Self
        where T: Zero,
        returns
            (Point2D { x: T::zero_spec(), y: T::zero_spec(), _unit: PhantomData::<U> }),
    {
        point2(T::zero(), T::zero())
    }

    /// The same as [`origin()`](#method.origin).
    #[verifier::allow_in_spec]
    pub fn zero() -> Self
        where T: Zero,
        returns
            Self::origin(),
    {
        Self::origin()
    }

    /// Constructor taking scalar values directly.
    #[verifier::allow_in_spec]
    pub fn new(x: T, y: T) -> Self
        returns
            (Point2D { x, y, _unit: PhantomData::<U> }),
    {
        Point2D { x, y, _unit: PhantomData }
    }

    /// Constructor taking properly Lengths instead of scalar values.
    #[verifier::allow_in_spec]
    pub fn from_lengths(x: Length<T, U>, y: Length<T, U>) -> Self
        returns
            (Point2D { x: x.0, y: y.0, _unit: PhantomData::<U> }),
    {
        point2(x.0, y.0)
    }

    /// Tag a unitless value with units.
    #[verifier::allow_in_spec]
    pub fn from_untyped(p: Point2D<T, UnknownUnit>) -> Self
        returns
            (Point2D { x: p.x, y: p.y, _unit: PhantomData::<U> }),
    {
        point2(p.x, p.y)
    }
}

impl<T: Copy, U> Point2D<T, U> {
    /// Create a 3d point from this one, using the specified z value.
    #[verifier::allow_in_spec]
    pub fn extend(&self, z: T) -> Point3D<T, U>
        returns
            (Point3D { x: self.x, y: self.y, z, _unit: PhantomData::<U> }),
    {
        point3(self.x, self.y, z)
    }

    /// Cast this point into a vector.
    ///
    /// Equivalent to subtracting the origin from this point.
    #[verifier::allow_in_spec]
    pub fn to_vector(&self) -> Vector2D<T, U>
        returns
            (Vector2D { x: self.x, y: self.y, _unit: PhantomData::<U> }),
    {
        Vector2D { x: self.x, y: self.y, _unit: PhantomData }
    }

    /// Swap x and y.
    #[verifier::allow_in_spec]
    pub fn yx(&self) -> Self
        returns
            (Point2D { x: self.y, y: self.x, _unit: PhantomData::<U> }),
    {
        point2(self.y, self.x)
    }

    /// Drop the units, preserving only the numeric value.
    #[verifier::allow_in_spec]
    pub fn to_untyped(&self) -> Point2D<T, UnknownUnit>
        returns
            (Point2D { x: self.x, y: self.y, _unit: PhantomData::<UnknownUnit> }),
    {
        point2(self.x, self.y)
    }

    /// Cast the unit, preserving the numeric value.
    #[verifier::allow_in_spec]
    pub fn cast_unit<V>(&self) -> Point2D<T, V>
        returns
            (Point2D { x: self.x, y: self.y, _unit: PhantomData::<V> }),
    {
        point2(self.x, self.y)
    }

    /// Cast into an array with x and y.
    pub fn to_array(&self) -> (r: [T; 2])
        ensures
            r@ == seq![self.x, self.y],
    {
        [self.x, self.y]
    }

    /// Cast into a tuple with x and y.
    #[verifier::allow_in_spec]
    pub fn to_tuple(&self) -> (T, T)
        returns
            (self.x, self.y),
    {
        (self.x, self.y)
    }

    /// Convert into a 3d point with z-coordinate equals to zero.
    #[verifier::allow_in_spec]
    pub fn to_3d(&self) -> Point3D<T, U>
        where T: Zero,
        returns
            (Point3D { x: self.x, y: self.y, z: T::zero_spec(), _unit: PhantomData::<U> }),
    {
        point3(self.x, self.y, T::zero())
    }

    /// The point that `lerp` returns: each component is `(1 - t) * a + t * b`,
    /// computed with the operators of `T`.
    pub open spec fn lerp_spec(self, other: Self, t: T) -> Self
        where T: One + Sub<Output = T> + Mul<Output = T> + Add<Output = T>,
    {
        Point2D {
            x: lerp_scalar(self.x, other.x, t),
            y: lerp_scalar(self.y, other.y, t),
            _unit: PhantomData,
        }
    }

    /// Linearly interpolate between this point and another point.
    ///
    /// When `t` is `One::one()`, returned value equals to `other`,
    /// otherwise equals to `self`.
    pub fn lerp(&self, other: Self, t: T) -> (r: Self)
        where T: One + Sub<Output = T> + Mul<Output = T> + Add<Output = T>,
        requires
            T::obeys_sub_spec(),
            T::obeys_mul_spec(),
            lerp_scalar_req(self.x, other.x, t),
            lerp_scalar_req(self.y, other.y, t),
        ensures
            T::obeys_add_spec() ==> r == self.lerp_spec(other, t),
    {
        let one_t = T::one() - t;
        point2(one_t * self.x + t * other.x, one_t * self.y + t * other.y)
    }
}

impl<T: PartialOrd, U> Point2D<T, U> {
    /// The point that `min` returns: the componentwise `min_spec`.
    pub open spec fn min_spec(self, other: Self) -> Self {
        Point2D { x: min_spec(self.x, other.x), y: min_spec(self.y, other.y), _unit: PhantomData }
    }

    /// The point that `max` returns: the componentwise `max_spec`.
    pub open spec fn max_spec(self, other: Self) -> Self {
        Point2D { x: max_spec(self.x, other.x), y: max_spec(self.y, other.y), _unit: PhantomData }
    }

    /// The componentwise minimum of the two points.
    pub fn min(self, other: Self) -> (r: Self)
        ensures
            r.x == self.x || r.x == other.x,
            r.y == self.y || r.y == other.y,
            T::obeys_partial_cmp_spec() ==> r == self.min_spec(other),
    {
        point2(min(self.x, other.x), min(self.y, other.y))
    }

    /// The componentwise maximum of the two points.
    pub fn max(self, other: Self) -> (r: Self)
        ensures
            r.x == self.x || r.x == other.x,
            r.y == self.y || r.y == other.y,
            T::obeys_partial_cmp_spec() ==> r == self.max_spec(other),
    {
        point2(max(self.x, other.x), max(self.y, other.y))
    }

    /// Returns the point each component of which clamped by corresponding
    /// components of `start` and `end`.
    ///
    /// Shortcut for `self.max(start).min(end)`.
    pub fn clamp(&self, start: Self, end: Self) -> (r: Self)
        where T: Copy,
        ensures
            r.x == self.x || r.x == start.x || r.x == end.x,
            r.y == self.y || r.y == start.y || r.y == end.y,
            T::obeys_partial_cmp_spec() ==> r == self.max_spec(start).min_spec(end),
    {
        self.max(start).min(end)
    }
}

impl<T: Copy + Add<T, Output = T>, U> Point2D<T, U> {
    /// Translates this point by a size.
    pub fn add_size(&self, other: &Size2D<T, U>) -> (r: Self)
        requires
            self.add_req(*other),
        ensures
            T::obeys_add_spec() ==> r == self.add_spec(*other),
    {
        point2(self.x + other.width, self.y + other.height)
    }
}

impl<T: Add<T, Output = T>, U> Add<Size2D<T, U>> for Point2D<T, U> {
    type Output = Self;

    fn add(self, other: Size2D<T, U>) -> (r: Self) {
        point2(self.x + other.width, self.y + other.height)
    }
}

impl<T: Add<T, Output = T>, U> vstd::std_specs::ops::AddSpecImpl<Size2D<T, U>> for Point2D<T, U> {
    open spec fn obeys_add_spec() -> bool {
        T::obeys_add_spec()
    }

    open spec fn add_req(self, rhs: Size2D<T, U>) -> bool {
        self.x.add_req(rhs.width) && self.y.add_req(rhs.height)
    }

    open spec fn add_spec(self, rhs: Size2D<T, U>) -> Self {
        Point2D {
            x: self.x.add_spec(rhs.width),
            y: self.y.add_spec(rhs.height),
            _unit: PhantomData,
        }
    }
}

impl<T: Copy + Add<T, Output = T>, U> AddAssign<Vector2D<T, U>> for Point2D<T, U> {
    fn add_assign(&mut self, other: Vector2D<T, U>)
        requires
            old(self).add_req(other),
        ensures
            T::obeys_add_spec() ==> *final(self) == old(self).add_spec(other),
    {
        *self = *self + other
    }
}

impl<T: Copy + Sub<T, Output = T>, U> SubAssign<Vector2D<T, U>> for Point2D<T, U> {
    fn sub_assign(&mut self, other: Vector2D<T, U>)
        requires
            old(self).sub_req(other),
        ensures
            T::obeys_sub_spec() ==> *final(self) == old(self).sub_spec(other),
    {
        *self = *self - other
    }
}

impl<T: Add<T, Output = T>, U> Add<Vector2D<T, U>> for Point2D<T, U> {
    type Output = Self;

    fn add(self, other: Vector2D<T, U>) -> (r: Self) {
        point2(self.x + other.x, self.y + other.y)
    }
}

impl<T: Add<T, Output = T>, U> vstd::std_specs::ops::AddSpecImpl<Vector2D<T, U>> for Point2D<T, U> {
    open spec fn obeys_add_spec() -> bool {
        T::obeys_add_spec()
    }

    open spec fn add_req(self, rhs: Vector2D<T, U>) -> bool {
        self.x.add_req(rhs.x) && self.y.add_req(rhs.y)
    }

    open spec fn add_spec(self, rhs: Vector2D<T, U>) -> Self {
        Point2D { x: self.x.add_spec(rhs.x), y: self.y.add_spec(rhs.y), _unit: PhantomData }
    }
}

impl<T: Sub<T, Output = T>, U> Sub for Point2D<T, U> {
    type Output = Vector2D<T, U>;

    fn sub(self, other: Self) -> (r: Vector2D<T, U>) {
        vec2(self.x - other.x, self.y - other.y)
    }
}

impl<T: Sub<T, Output = T>, U> vstd::std_specs::ops::SubSpecImpl for Point2D<T, U> {
    open spec fn obeys_sub_spec() -> bool {
        T::obeys_sub_spec()
    }

    open spec fn sub_req(self, rhs: Self) -> bool {
        self.x.sub_req(rhs.x) && self.y.sub_req(rhs.y)
    }

    open spec fn sub_spec(self, rhs: Self) -> Vector2D<T, U> {
        Vector2D { x: self.x.sub_spec(rhs.x), y: self.y.sub_spec(rhs.y), _unit: PhantomData }
    }
}

impl<T: Sub<T, Output = T>, U> Sub<Vector2D<T, U>> for Point2D<T, U> {
    type Output = Self;

    fn sub(self, other: Vector2D<T, U>) -> (r: Self) {
        point2(self.x - other.x, self.y - other.y)
    }
}

impl<T: Sub<T, Output = T>, U> vstd::std_specs::ops::SubSpecImpl<Vector2D<T, U>> for Point2D<T, U> {
    open spec fn obeys_sub_spec() -> bool {
        T::obeys_sub_spec()
    }

    open spec fn sub_req(self, rhs: Vector2D<T, U>) -> bool {
        self.x.sub_req(rhs.x) && self.y.sub_req(rhs.y)
    }

    open spec fn sub_spec(self, rhs: Vector2D<T, U>) -> Self {
        Point2D { x: self.x.sub_spec(rhs.x), y: self.y.sub_spec(rhs.y), _unit: PhantomData }
    }
}

impl<T: Copy + Mul<T, Output = T>, U> Mul<T> for Point2D<T, U> {
    type Output = Self;

    fn mul(self, scale: T) -> (r: Self) {
        point2(self.x * scale, self.y * scale)
    }
}

impl<T: Copy + Mul<T, Output = T>, U> vstd::std_specs::ops::MulSpecImpl<T> for Point2D<T, U> {
    open spec fn obeys_mul_spec() -> bool {
        T::obeys_mul_spec()
    }

    open spec fn mul_req(self, rhs: T) -> bool {
        self.x.mul_req(rhs) && self.y.mul_req(rhs)
    }

    open spec fn mul_spec(self, rhs: T) -> Self {
        Point2D { x: self.x.mul_spec(rhs), y: self.y.mul_spec(rhs), _unit: PhantomData }
    }
}

impl<T: Copy + Mul<T, Output = T>, U> MulAssign<T> for Point2D<T, U> {
    fn mul_assign(&mut self, scale: T)
        requires
            old(self).mul_req(scale),
        ensures
            T::obeys_mul_spec() ==> *final(self) == old(self).mul_spec(scale),
    {
        *self = *self * scale
    }
}

impl<T: Copy + Div<T, Output = T>, U> Div<T> for Point2D<T, U> {
    type Output = Self;

    fn div(self, scale: T) -> (r: Self) {
        point2(self.x / scale, self.y / scale)
    }
}

impl<T: Copy + Div<T, Output = T>, U> vstd::std_specs::ops::DivSpecImpl<T> for Point2D<T, U> {
    open spec fn obeys_div_spec() -> bool {
        T::obeys_div_spec()
    }

    open spec fn div_req(self, rhs: T) -> bool {
        self.x.div_req(rhs) && self.y.div_req(rhs)
    }

    open spec fn div_spec(self, rhs: T) -> Self {
        Point2D { x: self.x.div_spec(rhs), y: self.y.div_spec(rhs), _unit: PhantomData }
    }
}

impl<T: Copy + Div<T, Output = T>, U> DivAssign<T> for Point2D<T, U> {
    fn div_assign(&mut self, scale: T)
        requires
            old(self).div_req(scale),
        ensures
            T::obeys_div_spec() ==> *final(self) == old(self).div_spec(scale),
    {
        *self = *self / scale
    }
}

impl<T: Copy + Mul<T, Output = T>, U1, U2> Mul<Scale<T, U1, U2>> for Point2D<T, U1> {
    type Output = Point2D<T, U2>;

    fn mul(self, scale: Scale<T, U1, U2>) -> (r: Point2D<T, U2>) {
        point2(self.x * scale.get(), self.y * scale.get())
    }
}

impl<T: Copy + Mul<T, Output = T>, U1, U2> vstd::std_specs::ops::MulSpecImpl<Scale<T, U1, U2>> for Point2D<T, U1> {
    open spec fn obeys_mul_spec() -> bool {
        T::obeys_mul_spec()
    }

    open spec fn mul_req(self, rhs: Scale<T, U1, U2>) -> bool {
        self.x.mul_req(rhs.0) && self.y.mul_req(rhs.0)
    }

    open spec fn mul_spec(self, rhs: Scale<T, U1, U2>) -> Point2D<T, U2> {
        Point2D { x: self.x.mul_spec(rhs.0), y: self.y.mul_spec(rhs.0), _unit: PhantomData }
    }
}

impl<T: Copy + Div<T, Output = T>, U1, U2> Div<Scale<T, U1, U2>> for Point2D<T, U2> {
    type Output = Point2D<T, U1>;

    fn div(self, scale: Scale<T, U1, U2>) -> (r: Point2D<T, U1>) {
        point2(self.x / scale.get(), self.y / scale.get())
    }
}

impl<T: Copy + Div<T, Output = T>, U1, U2> vstd::std_specs::ops::DivSpecImpl<Scale<T, U1, U2>> for Point2D<T, U2> {
    open spec fn obeys_div_spec() -> bool {
        T::obeys_div_spec()
    }

    open spec fn div_req(self, rhs: Scale<T, U1, U2>) -> bool {
        self.x.div_req(rhs.0) && self.y.div_req(rhs.0)
    }

    open spec fn div_spec(self, rhs: Scale<T, U1, U2>) -> Point2D<T, U1> {
        Point2D { x: self.x.div_spec(rhs.0), y: self.y.div_spec(rhs.0), _unit: PhantomData }
    }
}

impl<T: Round, U> Point2D<T, U> {
    /// Rounds each component to the nearest integer value.
    #[must_use]
    pub fn round(&self) -> (r: Self)
        ensures
            r.x == self.x.round_spec(),
            r.y == self.y.round_spec(),
    {
        point2(self.x.round(), self.y.round())
    }
}

impl<T: Ceil, U> Point2D<T, U> {
    /// Rounds each component to the smallest integer equal or greater than the original value.
    #[must_use]
    pub fn ceil(&self) -> (r: Self)
        ensures
            r.x == self.x.ceil_spec(),
            r.y == self.y.ceil_spec(),
    {
        point2(self.x.ceil(), self.y.ceil())
    }
}

impl<T: Floor, U> Point2D<T, U> {
    /// Rounds each component to the biggest integer equal or lower than the original value.
    #[must_use]
    pub fn floor(&self) -> (r: Self)
        ensures
            r.x == self.x.floor_spec(),
            r.y == self.y.floor_spec(),
    {
        point2(self.x.floor(), self.y.floor())
    }
}

/// Shorthand for `Point2D::new(x, y)`.
#[verifier::allow_in_spec]
pub fn point2<T, U>(x: T, y: T) -> Point2D<T, U>
    returns
        (Point2D { x, y, _unit: PhantomData::<U> }),
{
    Point2D { x, y, _unit: PhantomData }
}

/// A 3d Point tagged with a unit.
#[derive(Debug)]
pub struct Point3D<T, U> {
    pub x: T,
    pub y: T,
    pub z: T,
    pub _unit: PhantomData<U>,
}

/// Shorthand for `Point3D::new(x, y, z)`.
#[verifier::allow_in_spec]
pub fn point3<T, U>(x: T, y: T, z: T) -> Point3D<T, U>
    returns
        (Point3D { x, y, z, _unit: PhantomData::<U> }),
{
    Point3D { x, y, z, _unit: PhantomData }
}

impl<T: Copy, U> Copy for Point3D<T, U> {}

impl<T: Hash, U> Hash for Point3D<T, U> {
    /// Feeds `x`, then `y`, then `z`, into the hasher.
    fn hash<H: Hasher>(&self, h: &mut H)
        ensures
            exists|m1: &mut H, m2: &mut H, m3: &mut H|
                {
                    &&& *m1 == *old(h) && hash_call(&self.x, m1)
                    &&& *m2 == *final(m1) && hash_call(&self.y, m2)
                    &&& *m3 == *final(m2) && hash_call(&self.z, m3)
                    &&& *final(m3) == *final(h)
                },
    {
        hash_into(&self.x, h);
        hash_into(&self.y, h);
        hash_into(&self.z, h);
        proof {
            assert(exists|m1: &mut H, m2: &mut H, m3: &mut H|
                {
                    &&& *m1 == *old(h) && #[trigger] call_ensures(
                        hash_into::<T, H>,
                        (&self.x, m1),
                        (),
                    )
                    &&& *m2 == *final(m1) && #[trigger] call_ensures(
                        hash_into::<T, H>,
                        (&self.y, m2),
                        (),
                    )
                    &&& *m3 == *final(m2) && #[trigger] call_ensures(
                        hash_into::<T, H>,
                        (&self.z, m3),
                        (),
                    )
                    &&& *final(m3) == *final(h)
                });
            let (m1, m2, m3) = choose|m1: &mut H, m2: &mut H, m3: &mut H|
                {
                    &&& *m1 == *old(h) && #[trigger] call_ensures(
                        hash_into::<T, H>,
                        (&self.x, m1),
                        (),
                    )
                    &&& *m2 == *final(m1) && #[trigger] call_ensures(
                        hash_into::<T, H>,
                        (&self.y, m2),
                        (),
                    )
                    &&& *m3 == *final(m2) && #[trigger] call_ensures(
                        hash_into::<T, H>,
                        (&self.z, m3),
                        (),
                    )
                    &&& *final(m3) == *final(h)
                };
            assert(hash_call(&self.x, m1) && hash_call(&self.y, m2) && hash_call(&self.z, m3));
        }
    }
}

impl<T: Clone, U> Clone for Point3D<T, U> {
    fn clone(&self) -> (r: Self)
        ensures
            cloned(self.x, r.x),
            cloned(self.y, r.y),
            cloned(self.z, r.z),
    {
        Point3D { x: self.x.clone(), y: self.y.clone(), z: self.z.clone(), _unit: PhantomData }
    }
}

impl<T: Eq, U> Eq for Point3D<T, U> {}

impl<T: PartialEq, U> PartialEq for Point3D<T, U> {
    /// `true` exactly when all three coordinates are equal; a coordinate is
    /// compared only where the ones before it are.
    fn eq(&self, other: &Self) -> (r: bool)
        ensures
            r ==> call_ensures(T::eq, (&self.x, &other.x), true) && call_ensures(
                T::eq,
                (&self.y, &other.y),
                true,
            ) && call_ensures(T::eq, (&self.z, &other.z), true),
            !r ==> call_ensures(T::eq, (&self.x, &other.x), false) || call_ensures(
                T::eq,
                (&self.y, &other.y),
                false,
            ) || call_ensures(T::eq, (&self.z, &other.z), false),
    {
        self.x == other.x && self.y == other.y && self.z == other.z
    }
}

impl<T: PartialEq, U> vstd::std_specs::cmp::PartialEqSpecImpl for Point3D<T, U> {
    open spec fn obeys_eq_spec() -> bool {
        T::obeys_eq_spec()
    }

    open spec fn eq_spec(&self, other: &Self) -> bool {
        self.x.eq_spec(&other.x) && self.y.eq_spec(&other.y) && self.z.eq_spec(&other.z)
    }
}

impl<T: Default, U> Default for Point3D<T, U> {
    fn default() -> (r: Self)
        ensures
            call_ensures(T::default, (), r.x),
            call_ensures(T::default, (), r.y),
            call_ensures(T::default, (), r.z),
    {
        Point3D::new(T::default(), T::default(), T::default())
    }
}

impl<T, U> Point3D<T, U> {
    /// Constructor, setting all components to zero.
    #[verifier::allow_in_spec]
    pub fn origin() -> Self
        where T: Zero,
        returns
            (Point3D {
                x: T::zero_spec(),
                y: T::zero_spec(),
                z: T::zero_spec(),
                _unit: PhantomData::<U>,
            }),
    {
        point3(T::zero(), T::zero(), T::zero())
    }

    /// The same as [`origin()`](#method.origin).
    #[verifier::allow_in_spec]
    pub fn zero() -> Self
        where T: Zero,
        returns
            Self::origin(),
    {
        Self::origin()
    }

    /// Constructor taking scalar values directly.
    #[verifier::allow_in_spec]
    pub fn new(x: T, y: T, z: T) -> Self
        returns
            (Point3D { x, y, z, _unit: PhantomData::<U> }),
    {
        Point3D { x, y, z, _unit: PhantomData }
    }

    /// Constructor taking properly Lengths instead of scalar values.
    #[verifier::allow_in_spec]
    pub fn from_lengths(x: Length<T, U>, y: Length<T, U>, z: Length<T, U>) -> Self
        returns
            (Point3D { x: x.0, y: y.0, z: z.0, _unit: PhantomData::<U> }),
    {
        point3(x.0, y.0, z.0)
    }

    /// Tag a unitless value with units.
    #[verifier::allow_in_spec]
    pub fn from_untyped(p: Point3D<T, UnknownUnit>) -> Self
        returns
            (Point3D { x: p.x, y: p.y, z: p.z, _unit: PhantomData::<U> }),
    {
        point3(p.x, p.y, p.z)
    }
}

impl<T: Copy, U> Point3D<T, U> {
    /// Cast this point into a vector.
    ///
    /// Equivalent to subtracting the origin to this point.
    #[verifier::allow_in_spec]
    pub fn to_vector(&self) -> Vector3D<T, U>
        returns
            (Vector3D { x: self.x, y: self.y, z: self.z, _unit: PhantomData::<U> }),
    {
        Vector3D { x: self.x, y: self.y, z: self.z, _unit: PhantomData }
    }

    /// Returns a 2d point using this point's x and y coordinates
    #[verifier::allow_in_spec]
    pub fn xy(&self) -> Point2D<T, U>
        returns
            (Point2D { x: self.x, y: self.y, _unit: PhantomData::<U> }),
    {
        point2(self.x, self.y)
    }

    /// Returns a 2d point using this point's x and z coordinates
    #[verifier::allow_in_spec]
    pub fn xz(&self) -> Point2D<T, U>
        returns
            (Point2D { x: self.x, y: self.z, _unit: PhantomData::<U> }),
    {
        point2(self.x, self.z)
    }

    /// Returns a 2d point using this point's y and z coordinates
    #[verifier::allow_in_spec]
    pub fn yz(&self) -> Point2D<T, U>
        returns
            (Point2D { x: self.y, y: self.z, _unit: PhantomData::<U> }),
    {
        point2(self.y, self.z)
    }

    /// Cast into an array with x, y and z.
    pub fn to_array(&self) -> (r: [T; 3])
        ensures
            r@ == seq![self.x, self.y, self.z],
    {
        [self.x, self.y, self.z]
    }

    /// Cast into an array with x, y, z and one.
    pub fn to_array_4d(&self) -> (r: [T; 4])
        where T: One,
        ensures
            r@ == seq![self.x, self.y, self.z, T::one_spec()],
    {
        [self.x, self.y, self.z, T::one()]
    }

    /// Cast into a tuple with x, y and z.
    #[verifier::allow_in_spec]
    pub fn to_tuple(&self) -> (T, T, T)
        returns
            (self.x, self.y, self.z),
    {
        (self.x, self.y, self.z)
    }

    /// Cast into a tuple with x, y, z and one.
    #[verifier::allow_in_spec]
    pub fn to_tuple_4d(&self) -> (T, T, T, T)
        where T: One,
        returns
            (self.x, self.y, self.z, T::one_spec()),
    {
        (self.x, self.y, self.z, T::one())
    }

    /// Drop the units, preserving only the numeric value.
    #[verifier::allow_in_spec]
    pub fn to_untyped(&self) -> Point3D<T, UnknownUnit>
        returns
            (Point3D { x: self.x, y: self.y, z: self.z, _unit: PhantomData::<UnknownUnit> }),
    {
        point3(self.x, self.y, self.z)
    }

    /// Cast the unit, preserving the numeric value.
    #[verifier::allow_in_spec]
    pub fn cast_unit<V>(&self) -> Point3D<T, V>
        returns
            (Point3D { x: self.x, y: self.y, z: self.z, _unit: PhantomData::<V> }),
    {
        point3(self.x, self.y, self.z)
    }

    /// Convert into a 2d point.
    #[verifier::allow_in_spec]
    pub fn to_2d(&self) -> Point2D<T, U>
        returns
            self.xy(),
    {
        self.xy()
    }

    /// The point that `lerp` returns: each component is `(1 - t) * a + t * b`,
    /// computed with the operators of `T`.
    pub open spec fn lerp_spec(self, other: Self, t: T) -> Self
        where T: One + Sub<Output = T> + Mul<Output = T> + Add<Output = T>,
    {
        Point3D {
            x: lerp_scalar(self.x, other.x, t),
            y: lerp_scalar(self.y, other.y, t),
            z: lerp_scalar(self.z, other.z, t),
            _unit: PhantomData,
        }
    }

    /// Linearly interpolate between this point and another point.
    ///
    /// When `t` is `One::one()`, returned value equals to `other`,
    /// otherwise equals to `self`.
    pub fn lerp(&self, other: Self, t: T) -> (r: Self)
        where T: One + Sub<Output = T> + Mul<Output = T> + Add<Output = T>,
        requires
            T::obeys_sub_spec(),
            T::obeys_mul_spec(),
            lerp_scalar_req(self.x, other.x, t),
            lerp_scalar_req(self.y, other.y, t),
            lerp_scalar_req(self.z, other.z, t),
        ensures
            T::obeys_add_spec() ==> r == self.lerp_spec(other, t),
    {
        let one_t = T::one() - t;
        point3(
            one_t * self.x + t * other.x,
            one_t * self.y + t * other.y,
            one_t * self.z + t * other.z,
        )
    }
}

impl<T: PartialOrd, U> Point3D<T, U> {
    /// The point that `min` returns: the componentwise `min_spec`.
    pub open spec fn min_spec(self, other: Self) -> Self {
        Point3D {
            x: min_spec(self.x, other.x),
            y: min_spec(self.y, other.y),
            z: min_spec(self.z, other.z),
            _unit: PhantomData,
        }
    }

    /// The point that `max` returns: the componentwise `max_spec`.
    pub open spec fn max_spec(self, other: Self) -> Self {
        Point3D {
            x: max_spec(self.x, other.x),
            y: max_spec(self.y, other.y),
            z: max_spec(self.z, other.z),
            _unit: PhantomData,
        }
    }

    /// The componentwise minimum of the two points.
    pub fn min(self, other: Self) -> (r: Self)
        ensures
            r.x == self.x || r.x == other.x,
            r.y == self.y || r.y == other.y,
            r.z == self.z || r.z == other.z,
            T::obeys_partial_cmp_spec() ==> r == self.min_spec(other),
    {
        point3(min(self.x, other.x), min(self.y, other.y), min(self.z, other.z))
    }

    /// The componentwise maximum of the two points.
    pub fn max(self, other: Self) -> (r: Self)
        ensures
            r.x == self.x || r.x == other.x,
            r.y == self.y || r.y == other.y,
            r.z == self.z || r.z == other.z,
            T::obeys_partial_cmp_spec() ==> r == self.max_spec(other),
    {
        point3(max(self.x, other.x), max(self.y, other.y), max(self.z, other.z))
    }

    /// Returns the point each component of which clamped by corresponding
    /// components of `start` and `end`.
    ///
    /// Shortcut for `self.max(start).min(end)`.
    pub fn clamp(&self, start: Self, end: Self) -> (r: Self)
        where T: Copy,
        ensures
            r.x == self.x || r.x == start.x || r.x == end.x,
            r.y == self.y || r.y == start.y || r.y == end.y,
            r.z == self.z || r.z == start.z || r.z == end.z,
            T::obeys_partial_cmp_spec() ==> r == self.max_spec(start).min_spec(end),
    {
        self.max(start).min(end)
    }
}

impl<T: Copy + Add<T, Output = T>, U> Point3D<T, U> {
    /// Translates this point by a size.
    pub fn add_size(&self, other: &Size3D<T, U>) -> (r: Self)
        requires
            self.x.add_req(other.width),
            self.y.add_req(other.height),
            self.z.add_req(other.depth),
        ensures
            T::obeys_add_spec() ==> r.x == self.x.add_spec(other.width),
            T::obeys_add_spec() ==> r.y == self.y.add_spec(other.height),
            T::obeys_add_spec() ==> r.z == self.z.add_spec(other.depth),
    {
        point3(self.x + other.width, self.y + other.height, self.z + other.depth)
    }
}

impl<T: Copy + Add<T, Output = T>, U> AddAssign<Vector3D<T, U>> for Point3D<T, U> {
    fn add_assign(&mut self, other: Vector3D<T, U>)
        requires
            old(self).add_req(other),
        ensures
            T::obeys_add_spec() ==> *final(self) == old(self).add_spec(other),
    {
        *self = *self + other
    }
}

impl<T: Copy + Sub<T, Output = T>, U> SubAssign<Vector3D<T, U>> for Point3D<T, U> {
    fn sub_assign(&mut self, other: Vector3D<T, U>)
        requires
            old(self).sub_req(other),
        ensures
            T::obeys_sub_spec() ==> *final(self) == old(self).sub_spec(other),
    {
        *self = *self - other
    }
}

impl<T: Add<T, Output = T>, U> Add<Vector3D<T, U>> for Point3D<T, U> {
    type Output = Self;

    fn add(self, other: Vector3D<T, U>) -> (r: Self) {
        point3(self.x + other.x, self.y + other.y, self.z + other.z)
    }
}

impl<T: Add<T, Output = T>, U> vstd::std_specs::ops::AddSpecImpl<Vector3D<T, U>> for Point3D<T, U> {
    open spec fn obeys_add_spec() -> bool {
        T::obeys_add_spec()
    }

    open spec fn add_req(self, rhs: Vector3D<T, U>) -> bool {
        self.x.add_req(rhs.x) && self.y.add_req(rhs.y) && self.z.add_req(rhs.z)
    }

    open spec fn add_spec(self, rhs: Vector3D<T, U>) -> Self {
        Point3D {
            x: self.x.add_spec(rhs.x),
            y: self.y.add_spec(rhs.y),
            z: self.z.add_spec(rhs.z),
            _unit: PhantomData,
        }
    }
}

impl<T: Sub<T, Output = T>, U> Sub for Point3D<T, U> {
    type Output = Vector3D<T, U>;

    fn sub(self, other: Self) -> (r: Vector3D<T, U>) {
        vec3(self.x - other.x, self.y - other.y, self.z - other.z)
    }
}

impl<T: Sub<T, Output = T>, U> vstd::std_specs::ops::SubSpecImpl for Point3D<T, U> {
    open spec fn obeys_sub_spec() -> bool {
        T::obeys_sub_spec()
    }

    open spec fn sub_req(self, rhs: Self) -> bool {
        self.x.sub_req(rhs.x) && self.y.sub_req(rhs.y) && self.z.sub_req(rhs.z)
    }

    open spec fn sub_spec(self, rhs: Self) -> Vector3D<T, U> {
        Vector3D {
            x: self.x.sub_spec(rhs.x),
            y: self.y.sub_spec(rhs.y),
            z: self.z.sub_spec(rhs.z),
            _unit: PhantomData,
        }
    }
}

impl<T: Sub<T, Output = T>, U> Sub<Vector3D<T, U>> for Point3D<T, U> {
    type Output = Self;

    fn sub(self, other: Vector3D<T, U>) -> (r: Self) {
        point3(self.x - other.x, self.y - other.y, self.z - other.z)
    }
}

impl<T: Sub<T, Output = T>, U> vstd::std_specs::ops::SubSpecImpl<Vector3D<T, U>> for Point3D<T, U> {
    open spec fn obeys_sub_spec() -> bool {
        T::obeys_sub_spec()
    }

    open spec fn sub_req(self, rhs: Vector3D<T, U>) -> bool {
        self.x.sub_req(rhs.x) && self.y.sub_req(rhs.y) && self.z.sub_req(rhs.z)
    }

    open spec fn sub_spec(self, rhs: Vector3D<T, U>) -> Self {
        Point3D {
            x: self.x.sub_spec(rhs.x),
            y: self.y.sub_spec(rhs.y),
            z: self.z.sub_spec(rhs.z),
            _unit: PhantomData,
        }
    }
}

impl<T: Copy + Mul<T, Output = T>, U> Mul<T> for Point3D<T, U> {
    type Output = Self;

    fn mul(self, scale: T) -> (r: Self) {
        point3(self.x * scale, self.y * scale, self.z * scale)
    }
}

impl<T: Copy + Mul<T, Output = T>, U> vstd::std_specs::ops::MulSpecImpl<T> for Point3D<T, U> {
    open spec fn obeys_mul_spec() -> bool {
        T::obeys_mul_spec()
    }

    open spec fn mul_req(self, rhs: T) -> bool {
        self.x.mul_req(rhs) && self.y.mul_req(rhs) && self.z.mul_req(rhs)
    }

    open spec fn mul_spec(self, rhs: T) -> Self {
        Point3D {
            x: self.x.mul_spec(rhs),
            y: self.y.mul_spec(rhs),
            z: self.z.mul_spec(rhs),
            _unit: PhantomData,
        }
    }
}

impl<T: Copy + Mul<T, Output = T>, U1, U2> Mul<Scale<T, U1, U2>> for Point3D<T, U1> {
    type Output = Point3D<T, U2>;

    fn mul(self, scale: Scale<T, U1, U2>) -> (r: Point3D<T, U2>) {
        point3(self.x * scale.get(), self.y * scale.get(), self.z * scale.get())
    }
}

impl<T: Copy + Mul<T, Output = T>, U1, U2> vstd::std_specs::ops::MulSpecImpl<Scale<T, U1, U2>> for Point3D<T, U1> {
    open spec fn obeys_mul_spec() -> bool {
        T::obeys_mul_spec()
    }

    open spec fn mul_req(self, rhs: Scale<T, U1, U2>) -> bool {
        self.x.mul_req(rhs.0) && self.y.mul_req(rhs.0) && self.z.mul_req(rhs.0)
    }

    open spec fn mul_spec(self, rhs: Scale<T, U1, U2>) -> Point3D<T, U2> {
        Point3D {
            x: self.x.mul_spec(rhs.0),
            y: self.y.mul_spec(rhs.0),
            z: self.z.mul_spec(rhs.0),
            _unit: PhantomData,
        }
    }
}

impl<T: Copy + Div<T, Output = T>, U> Div<T> for Point3D<T, U> {
    type Output = Self;

    fn div(self, scale: T) -> (r: Self) {
        point3(self.x / scale, self.y / scale, self.z / scale)
    }
}

impl<T: Copy + Div<T, Output = T>, U> vstd::std_specs::ops::DivSpecImpl<T> for Point3D<T, U> {
    open spec fn obeys_div_spec() -> bool {
        T::obeys_div_spec()
    }

    open spec fn div_req(self, rhs: T) -> bool {
        self.x.div_req(rhs) && self.y.div_req(rhs) && self.z.div_req(rhs)
    }

    open spec fn div_spec(self, rhs: T) -> Self {
        Point3D {
            x: self.x.div_spec(rhs),
            y: self.y.div_spec(rhs),
            z: self.z.div_spec(rhs),
            _unit: PhantomData,
        }
    }
}

impl<T: Copy + Div<T, Output = T>, U1, U2> Div<Scale<T, U1, U2>> for Point3D<T, U2> {
    type Output = Point3D<T, U1>;

    fn div(self, scale: Scale<T, U1, U2>) -> (r: Point3D<T, U1>) {
        point3(self.x / scale.get(), self.y / scale.get(), self.z / scale.get())
    }
}

impl<T: Copy + Div<T, Output = T>, U1, U2> vstd::std_specs::ops::DivSpecImpl<Scale<T, U1, U2>> for Point3D<T, U2> {
    open spec fn obeys_div_spec() -> bool {
        T::obeys_div_spec()
    }

    open spec fn div_req(self, rhs: Scale<T, U1, U2>) -> bool {
        self.x.div_req(rhs.0) && self.y.div_req(rhs.0) && self.z.div_req(rhs.0)
    }

    open spec fn div_spec(self, rhs: Scale<T, U1, U2>) -> Point3D<T, U1> {
        Point3D {
            x: self.x.div_spec(rhs.0),
            y: self.y.div_spec(rhs.0),
            z: self.z.div_spec(rhs.0),
            _unit: PhantomData,
        }
    }
}

impl<T: Round, U> Point3D<T, U> {
    /// Rounds each component to the nearest integer value.
    #[must_use]
    pub fn round(&self) -> (r: Self)
        ensures
            r.x == self.x.round_spec(),
            r.y == self.y.round_spec(),
            r.z == self.z.round_spec(),
    {
        point3(self.x.round(), self.y.round(), self.z.round())
    }
}

impl<T: Ceil, U> Point3D<T, U> {
    /// Rounds each component to the smallest integer equal or greater than the original value.
    #[must_use]
    pub fn ceil(&self) -> (r: Self)
        ensures
            r.x == self.x.ceil_spec(),
            r.y == self.y.ceil_spec(),
            r.z == self.z.ceil_spec(),
    {
        point3(self.x.ceil(), self.y.ceil(), self.z.ceil())
    }
}

impl<T: Floor, U> Point3D<T, U> {
    /// Rounds each component to the biggest integer equal or lower than the original value.
    #[must_use]
    pub fn floor(&self) -> (r: Self)
        ensures
            r.x == self.x.floor_spec(),
            r.y == self.y.floor_spec(),
            r.z == self.z.floor_spec(),
    {
        point3(self.x.floor(), self.y.floor(), self.z.floor())
    }
}

/// Converts `v` to another numeric type with `num_traits::NumCast::from`.
///
/// Nothing is stated of the result: `NumCast::from` returns `None` where `N` cannot
/// represent the value of `v`, and which values a type represents depends on the two
/// numeric types, which are left open here.
#[verifier::external_body]
fn num_cast<T: NumCast + Copy, N: NumCast>(v: T) -> Option<N> {
    N::from(v)
}

/// `r` is what converting `v` with `num_traits::NumCast::from` gives.
pub closed spec fn num_cast_outcome<T: NumCast + Copy, N: NumCast>(v: T, r: Option<N>) -> bool {
    call_ensures(num_cast::<T, N>, (v,), r)
}

impl<T, U> Point2D<T, U> {
    /// The point made of two components that may be missing: `Some` exactly when
    /// both are there.
    pub fn try_from_components(x: Option<T>, y: Option<T>) -> (r: Option<Self>)
        ensures
            r == (match (x, y) {
                (Some(a), Some(b)) => Some(Point2D { x: a, y: b, _unit: PhantomData::<U> }),
                _ => None,
            }),
    {
        match (x, y) {
            (Some(a), Some(b)) => Some(point2(a, b)),
            _ => None,
        }
    }
}

impl<T: NumCast + Copy, U> Point2D<T, U> {
    /// Fallible cast from one numeric representation to another, preserving the units.
    ///
    /// When casting from floating point to integer coordinates, the decimals are truncated
    /// as one would expect from a simple cast, but this behavior does not always make sense
    /// geometrically. Consider using `round()`, `ceil()` or `floor()` before casting.
    pub fn try_cast<NewT: NumCast>(&self) -> (r: Option<Point2D<NewT, U>>)
        ensures
            exists|cx: Option<NewT>, cy: Option<NewT>|
                {
                    &&& num_cast_outcome(self.x, cx)
                    &&& num_cast_outcome(self.y, cy)
                    &&& r == match (cx, cy) {
                        (Some(a), Some(b)) => Some(Point2D { x: a, y: b, _unit: PhantomData::<U> }),
                        _ => None,
                    }
                },
    {
        let cx = num_cast(self.x);
        let cy = num_cast(self.y);
        assert(num_cast_outcome(self.x, cx) && num_cast_outcome(self.y, cy));
        Point2D::try_from_components(cx, cy)
    }
}

impl<T: ApproxEq<T>, U> ApproxEq<Point2D<T, U>> for Point2D<T, U> {
    fn approx_epsilon() -> (r: Self)
        ensures
            call_ensures(T::approx_epsilon, (), r.x),
            call_ensures(T::approx_epsilon, (), r.y),
    {
        point2(T::approx_epsilon(), T::approx_epsilon())
    }

    /// `true` exactly when both coordinates are approximately equal; `y` is compared
    /// only where `x` is.
    fn approx_eq(&self, other: &Self) -> (r: bool)
        ensures
            r ==> call_ensures(T::approx_eq, (&self.x, &other.x), true) && call_ensures(
                T::approx_eq,
                (&self.y, &other.y),
                true,
            ),
            !r ==> call_ensures(T::approx_eq, (&self.x, &other.x), false) || call_ensures(
                T::approx_eq,
                (&self.y, &other.y),
                false,
            ),
    {
        self.x.approx_eq(&other.x) && self.y.approx_eq(&other.y)
    }

    /// `true` exactly when both coordinates are approximately equal, each up to its
    /// own coordinate of `eps`; `y` is compared only where `x` is.
    fn approx_eq_eps(&self, other: &Self, eps: &Self) -> (r: bool)
        ensures
            r ==> call_ensures(T::approx_eq_eps, (&self.x, &other.x, &eps.x), true)
                && call_ensures(T::approx_eq_eps, (&self.y, &other.y, &eps.y), true),
            !r ==> call_ensures(T::approx_eq_eps, (&self.x, &other.x, &eps.x), false)
                || call_ensures(T::approx_eq_eps, (&self.y, &other.y, &eps.y), false),
    {
        self.x.approx_eq_eps(&other.x, &eps.x) && self.y.approx_eq_eps(&other.y, &eps.y)
    }
}

impl<T, U> Into<[T; 2]> for Point2D<T, U> {
    fn into(self) -> (r: [T; 2]) {
        [self.x, self.y]
    }
}

impl<T, U> vstd::std_specs::convert::IntoSpecImpl<[T; 2]> for Point2D<T, U> {
    open spec fn obeys_into_spec() -> bool {
        true
    }

    open spec fn into_spec(self) -> [T; 2] {
        [self.x, self.y]
    }
}

/// Splits an array of two into a pair with std's `From<[T; 2]> for (T, T)`, which
/// keeps the elements in their order.
#[verifier::external_body]
fn array2_to_tuple<T>(array: [T; 2]) -> (r: (T, T))
    ensures
        r.0 == array[0],
        r.1 == array[1],
{
    <(T, T)>::from(array)
}

impl<T, U> From<[T; 2]> for Point2D<T, U> {
    fn from(array: [T; 2]) -> (r: Self) {
        let (x, y) = array2_to_tuple(array);
        point2(x, y)
    }
}

impl<T, U> vstd::std_specs::convert::FromSpecImpl<[T; 2]> for Point2D<T, U> {
    open spec fn obeys_from_spec() -> bool {
        true
    }

    open spec fn from_spec(array: [T; 2]) -> Self {
        Point2D { x: array[0], y: array[1], _unit: PhantomData }
    }
}

impl<T, U> Into<(T, T)> for Point2D<T, U> {
    fn into(self) -> (r: (T, T)) {
        (self.x, self.y)
    }
}

impl<T, U> vstd::std_specs::convert::IntoSpecImpl<(T, T)> for Point2D<T, U> {
    open spec fn obeys_into_spec() -> bool {
        true
    }

    open spec fn into_spec(self) -> (T, T) {
        (self.x, self.y)
    }
}

impl<T, U> From<(T, T)> for Point2D<T, U> {
    fn from(tuple: (T, T)) -> (r: Self) {
        point2(tuple.0, tuple.1)
    }
}

impl<T, U> vstd::std_specs::convert::FromSpecImpl<(T, T)> for Point2D<T, U> {
    open spec fn obeys_from_spec() -> bool {
        true
    }

    open spec fn from_spec(tuple: (T, T)) -> Self {
        Point2D { x: tuple.0, y: tuple.1, _unit: PhantomData }
    }
}

impl<T, U> Point3D<T, U> {
    /// The point made of three components that may be missing: `Some` exactly when
    /// all three are there.
    pub fn try_from_components(x: Option<T>, y: Option<T>, z: Option<T>) -> (r: Option<Self>)
        ensures
            r == (match (x, y, z) {
                (Some(a), Some(b), Some(c)) => Some(
                    Point3D { x: a, y: b, z: c, _unit: PhantomData::<U> },
                ),
                _ => None,
            }),
    {
        match (x, y, z) {
            (Some(a), Some(b), Some(c)) => Some(point3(a, b, c)),
            _ => None,
        }
    }
}

impl<T: NumCast + Copy, U> Point3D<T, U> {
    /// Fallible cast from one numeric representation to another, preserving the units.
    ///
    /// When casting from floating point to integer coordinates, the decimals are truncated
    /// as one would expect from a simple cast, but this behavior does not always make sense
    /// geometrically. Consider using `round()`, `ceil()` or `floor()` before casting.
    pub fn try_cast<NewT: NumCast>(&self) -> (r: Option<Point3D<NewT, U>>)
        ensures
            exists|cx: Option<NewT>, cy: Option<NewT>, cz: Option<NewT>|
                {
                    &&& num_cast_outcome(self.x, cx)
                    &&& num_cast_outcome(self.y, cy)
                    &&& num_cast_outcome(self.z, cz)
                    &&& r == match (cx, cy, cz) {
                        (Some(a), Some(b), Some(c)) => Some(
                            Point3D { x: a, y: b, z: c, _unit: PhantomData::<U> },
                        ),
                        _ => None,
                    }
                },
    {
        let cx = num_cast(self.x);
        let cy = num_cast(self.y);
        let cz = num_cast(self.z);
        assert(num_cast_outcome(self.x, cx) && num_cast_outcome(self.y, cy) && num_cast_outcome(
            self.z,
            cz,
        ));
        Point3D::try_from_components(cx, cy, cz)
    }
}

impl<T: ApproxEq<T>, U> ApproxEq<Point3D<T, U>> for Point3D<T, U> {
    fn approx_epsilon() -> (r: Self)
        ensures
            call_ensures(T::approx_epsilon, (), r.x),
            call_ensures(T::approx_epsilon, (), r.y),
            call_ensures(T::approx_epsilon, (), r.z),
    {
        point3(T::approx_epsilon(), T::approx_epsilon(), T::approx_epsilon())
    }

    /// `true` exactly when all three coordinates are approximately equal; a
    /// coordinate is compared only where the ones before it are.
    fn approx_eq(&self, other: &Self) -> (r: bool)
        ensures
            r ==> call_ensures(T::approx_eq, (&self.x, &other.x), true) && call_ensures(
                T::approx_eq,
                (&self.y, &other.y),
                true,
            ) && call_ensures(T::approx_eq, (&self.z, &other.z), true),
            !r ==> call_ensures(T::approx_eq, (&self.x, &other.x), false) || call_ensures(
                T::approx_eq,
                (&self.y, &other.y),
                false,
            ) || call_ensures(T::approx_eq, (&self.z, &other.z), false),
    {
        self.x.approx_eq(&other.x) && self.y.approx_eq(&other.y) && self.z.approx_eq(&other.z)
    }

    /// `true` exactly when all three coordinates are approximately equal, each up to
    /// its own coordinate of `eps`; a coordinate is compared only where the ones
    /// before it are.
    fn approx_eq_eps(&self, other: &Self, eps: &Self) -> (r: bool)
        ensures
            r ==> call_ensures(T::approx_eq_eps, (&self.x, &other.x, &eps.x), true)
                && call_ensures(T::approx_eq_eps, (&self.y, &other.y, &eps.y), true)
                && call_ensures(T::approx_eq_eps, (&self.z, &other.z, &eps.z), true),
            !r ==> call_ensures(T::approx_eq_eps, (&self.x, &other.x, &eps.x), false)
                || call_ensures(T::approx_eq_eps, (&self.y, &other.y, &eps.y), false)
                || call_ensures(T::approx_eq_eps, (&self.z, &other.z, &eps.z), false),
    {
        self.x.approx_eq_eps(&other.x, &eps.x) && self.y.approx_eq_eps(&other.y, &eps.y)
            && self.z.approx_eq_eps(&other.z, &eps.z)
    }
}

impl<T, U> Into<[T; 3]> for Point3D<T, U> {
    fn into(self) -> (r: [T; 3]) {
        [self.x, self.y, self.z]
    }
}

impl<T, U> vstd::std_specs::convert::IntoSpecImpl<[T; 3]> for Point3D<T, U> {
    open spec fn obeys_into_spec() -> bool {
        true
    }

    open spec fn into_spec(self) -> [T; 3] {
        [self.x, self.y, self.z]
    }
}

/// Splits an array of three into a triple with std's `From<[T; 3]> for (T, T, T)`,
/// which keeps the elements in their order.
#[verifier::external_body]
fn array3_to_tuple<T>(array: [T; 3]) -> (r: (T, T, T))
    ensures
        r.0 == array[0],
        r.1 == array[1],
        r.2 == array[2],
{
    <(T, T, T)>::from(array)
}

impl<T, U> From<[T; 3]> for Point3D<T, U> {
    fn from(array: [T; 3]) -> (r: Self) {
        let (x, y, z) = array3_to_tuple(array);
        point3(x, y, z)
    }
}

impl<T, U> vstd::std_specs::convert::FromSpecImpl<[T; 3]> for Point3D<T, U> {
    open spec fn obeys_from_spec() -> bool {
        true
    }

    open spec fn from_spec(array: [T; 3]) -> Self {
        Point3D { x: array[0], y: array[1], z: array[2], _unit: PhantomData }
    }
}

impl<T, U> Into<(T, T, T)> for Point3D<T, U> {
    fn into(self) -> (r: (T, T, T)) {
        (self.x, self.y, self.z)
    }
}

impl<T, U> vstd::std_specs::convert::IntoSpecImpl<(T, T, T)> for Point3D<T, U> {
    open spec fn obeys_into_spec() -> bool {
        true
    }

    open spec fn into_spec(self) -> (T, T, T) {
        (self.x, self.y, self.z)
    }
}

impl<T, U> From<(T, T, T)> for Point3D<T, U> {
    fn from(tuple: (T, T, T)) -> (r: Self) {
        point3(tuple.0, tuple.1, tuple.2)
    }
}

impl<T, U> vstd::std_specs::convert::FromSpecImpl<(T, T, T)> for Point3D<T, U> {
    open spec fn obeys_from_spec() -> bool {
        true
    }

    open spec fn from_spec(tuple: (T, T, T)) -> Self {
        Point3D { x: tuple.0, y: tuple.1, z: tuple.2, _unit: PhantomData }
    }
}

#[verifier::external_type_specification]
#[verifier::external_body]
#[verifier::reject_recursive_types(T)]
pub struct ExMintPoint2<T>(mint::Point2<T>);

#[verifier::external_type_specification]
#[verifier::external_body]
#[verifier::reject_recursive_types(T)]
pub struct ExMintPoint3<T>(mint::Point3<T>);

/// Builds a `mint::Point2` from its fields `x` and `y`. The mint type is opaque
/// here, so nothing is stated of the value built.
#[verifier::external_body]
fn mint_point2_new<T>(x: T, y: T) -> mint::Point2<T> {
    mint::Point2 { x, y }
}

/// Takes a `mint::Point2` apart into its fields `(x, y)`. The mint type is opaque
/// here; what is stated is that a point built from `x` and `y` by
/// `mint_point2_new` gives back `x` and `y`.
#[verifier::external_body]
fn mint_point2_fields<T>(p: mint::Point2<T>) -> (r: (T, T))
    ensures
        forall|x: T, y: T| #[trigger] mint_point2_new_outcome(x, y, p) ==> r == (x, y),
{
    (p.x, p.y)
}

/// Builds a `mint::Point3` from its fields `x`, `y` and `z`. The mint type is
/// opaque here, so nothing is stated of the value built.
#[verifier::external_body]
fn mint_point3_new<T>(x: T, y: T, z: T) -> mint::Point3<T> {
    mint::Point3 { x, y, z }
}

/// Takes a `mint::Point3` apart into its fields `(x, y, z)`. The mint type is
/// opaque here; what is stated is that a point built from `x`, `y` and `z` by
/// `mint_point3_new` gives back `x`, `y` and `z`.
#[verifier::external_body]
fn mint_point3_fields<T>(p: mint::Point3<T>) -> (r: (T, T, T))
    ensures
        forall|x: T, y: T, z: T| #[trigger] mint_point3_new_outcome(x, y, z, p) ==> r == (x, y, z),
{
    (p.x, p.y, p.z)
}

/// `fields` is what taking `p` apart gives: its `x` and its `y`.
pub closed spec fn mint_point2_fields_outcome<T>(p: mint::Point2<T>, fields: (T, T)) -> bool {
    call_ensures(mint_point2_fields::<T>, (p,), fields)
}

/// `p` is the `mint::Point2` built from `x` and `y`.
pub closed spec fn mint_point2_new_outcome<T>(x: T, y: T, p: mint::Point2<T>) -> bool {
    call_ensures(mint_point2_new::<T>, (x, y), p)
}

/// `fields` is what taking `p` apart gives: its `x`, `y` and `z`.
pub closed spec fn mint_point3_fields_outcome<T>(p: mint::Point3<T>, fields: (T, T, T)) -> bool {
    call_ensures(mint_point3_fields::<T>, (p,), fields)
}

/// `p` is the `mint::Point3` built from `x`, `y` and `z`.
pub closed spec fn mint_point3_new_outcome<T>(x: T, y: T, z: T, p: mint::Point3<T>) -> bool {
    call_ensures(mint_point3_new::<T>, (x, y, z), p)
}

impl<T, U> From<mint::Point2<T>> for Point2D<T, U> {
    fn from(v: mint::Point2<T>) -> (r: Self)
        ensures
            mint_point2_fields_outcome(v, (r.x, r.y)),
            forall|x: T, y: T| #[trigger]
                mint_point2_new_outcome(x, y, v) ==> r == (Point2D { x, y, _unit: PhantomData::<U> }),
    {
        let fields = mint_point2_fields(v);
        assert(mint_point2_fields_outcome(v, fields));
        point2(fields.0, fields.1)
    }
}

impl<T, U> vstd::std_specs::convert::FromSpecImpl<mint::Point2<T>> for Point2D<T, U> {
    open spec fn obeys_from_spec() -> bool {
        false
    }

    open spec fn from_spec(v: mint::Point2<T>) -> Self {
        arbitrary()
    }
}

impl<T, U> Into<mint::Point2<T>> for Point2D<T, U> {
    fn into(self) -> (r: mint::Point2<T>)
        ensures
            mint_point2_new_outcome(self.x, self.y, r),
    {
        let r = mint_point2_new(self.x, self.y);
        assert(mint_point2_new_outcome(self.x, self.y, r));
        r
    }
}

impl<T, U> vstd::std_specs::convert::IntoSpecImpl<mint::Point2<T>> for Point2D<T, U> {
    open spec fn obeys_into_spec() -> bool {
        false
    }

    open spec fn into_spec(self) -> mint::Point2<T> {
        arbitrary()
    }
}

impl<T, U> From<mint::Point3<T>> for Point3D<T, U> {
    fn from(v: mint::Point3<T>) -> (r: Self)
        ensures
            mint_point3_fields_outcome(v, (r.x, r.y, r.z)),
            forall|x: T, y: T, z: T| #[trigger]
                mint_point3_new_outcome(x, y, z, v) ==> r == (Point3D {
                    x,
                    y,
                    z,
                    _unit: PhantomData::<U>,
                }),
    {
        let fields = mint_point3_fields(v);
        assert(mint_point3_fields_outcome(v, fields));
        point3(fields.0, fields.1, fields.2)
    }
}

impl<T, U> vstd::std_specs::convert::FromSpecImpl<mint::Point3<T>> for Point3D<T, U> {
    open spec fn obeys_from_spec() -> bool {
        false
    }

    open spec fn from_spec(v: mint::Point3<T>) -> Self {
        arbitrary()
    }
}

impl<T, U> Into<mint::Point3<T>> for Point3D<T, U> {
    fn into(self) -> (r: mint::Point3<T>)
        ensures
            mint_point3_new_outcome(self.x, self.y, self.z, r),
    {
        let r = mint_point3_new(self.x, self.y, self.z);
        assert(mint_point3_new_outcome(self.x, self.y, self.z, r));
        r
    }
}

impl<T, U> vstd::std_specs::convert::IntoSpecImpl<mint::Point3<T>> for Point3D<T, U> {
    open spec fn obeys_into_spec() -> bool {
        false
    }

    open spec fn into_spec(self) -> mint::Point3<T> {
        arbitrary()
    }
}

} // verus!
