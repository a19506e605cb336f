//! Properties that relate the operations on points to each other.

use crate::approxord::{comparable, max_spec, min_spec};
use crate::num::{
    add_sub_inverse, lerp_identities, lerp_scalar_req, mul_div_inverse, sub_zero_is_identity, One,
    Zero,
};
use crate::point::{Point2D, Point3D};
use crate::scale::Scale;
use crate::vector::{Vector2D, Vector3D};
use core::ops::{Add, Div, Mul, Sub};
use vstd::laws_cmp::obeys_partial_cmp_spec_properties;
use vstd::laws_eq::{obeys_concrete_eq, obeys_eq_spec_properties};
use vstd::prelude::*;
use vstd::std_specs::cmp::{PartialEqSpec, PartialOrdIs, PartialOrdSpec};
use vstd::std_specs::convert::{FromSpec, IntoSpec};
use vstd::std_specs::ops::{AddSpec, DivSpec, MulSpec, SubSpec};

verus! {

/// Turning a point into a vector and back gives the point again.
pub proof fn lemma_point2_vector_round_trip<T: Copy, U>(p: Point2D<T, U>)
    ensures
        p.to_vector().to_point() == p,
{
}

/// Turning a point into a vector and back gives the point again.
pub proof fn lemma_point3_vector_round_trip<T: Copy, U>(p: Point3D<T, U>)
    ensures
        p.to_vector().to_point() == p,
{
}

/// Swapping x and y twice gives the point again.
pub proof fn lemma_yx_involution<T: Copy, U>(p: Point2D<T, U>)
    ensures
        p.yx().yx() == p,
{
}

/// Dropping the unit and tagging the value with it again gives the point again;
/// so does casting to another unit and back.
pub proof fn lemma_point2_unit_round_trip<T: Copy, U, V>(p: Point2D<T, U>)
    ensures
        Point2D::<T, U>::from_untyped(p.to_untyped()) == p,
        p.cast_unit::<V>().cast_unit::<U>() == p,
{
}

/// Dropping the unit and tagging the value with it again gives the point again;
/// so does casting to another unit and back.
pub proof fn lemma_point3_unit_round_trip<T: Copy, U, V>(p: Point3D<T, U>)
    ensures
        Point3D::<T, U>::from_untyped(p.to_untyped()) == p,
        p.cast_unit::<V>().cast_unit::<U>() == p,
{
}

/// Converting a point into an array or a tuple and back gives the point again.
pub proof fn lemma_point2_array_tuple_round_trip<T, U>(p: Point2D<T, U>)
    ensures
        <Point2D<T, U> as FromSpec<[T; 2]>>::from_spec(
            <Point2D<T, U> as IntoSpec<[T; 2]>>::into_spec(p),
        ) == p,
        <Point2D<T, U> as FromSpec<(T, T)>>::from_spec(
            <Point2D<T, U> as IntoSpec<(T, T)>>::into_spec(p),
        ) == p,
{
}

/// Converting a point into an array or a tuple and back gives the point again.
pub proof fn lemma_point3_array_tuple_round_trip<T, U>(p: Point3D<T, U>)
    ensures
        <Point3D<T, U> as FromSpec<[T; 3]>>::from_spec(
            <Point3D<T, U> as IntoSpec<[T; 3]>>::into_spec(p),
        ) == p,
        <Point3D<T, U> as FromSpec<(T, T, T)>>::from_spec(
            <Point3D<T, U> as IntoSpec<(T, T, T)>>::into_spec(p),
        ) == p,
{
}

/// Extending a 2d point with a z value and projecting it back onto x and y gives
/// the point again; a 3d point is its x and y extended with its z.
pub proof fn lemma_extend_xy<T: Copy, U>(p: Point2D<T, U>, q: Point3D<T, U>, z: T)
    ensures
        p.extend(z).xy() == p,
        p.extend(z).z == z,
        q.xy().extend(q.z) == q,
        q.to_2d() == q.xy(),
{
}

/// A 2d point made 3d lies in the plane z = 0, and projects back onto itself.
pub proof fn lemma_to_3d_xy<T: Copy + Zero, U>(p: Point2D<T, U>)
    ensures
        p.to_3d().xy() == p,
        p.to_3d().z == T::zero_spec(),
{
}

/// Moving a point by a vector and then back by the same vector gives the point
/// again, for coordinate types where adding and then subtracting is the identity
/// (every primitive integer type: see `lemma_i32_integer_identities` and the like).
pub proof fn lemma_point2_add_then_sub<T: Add<Output = T> + Sub<Output = T>, U>(
    p: Point2D<T, U>,
    v: Vector2D<T, U>,
)
    requires
        add_sub_inverse::<T>(),
        p.add_req(v),
    ensures
        p.add_spec(v).sub_req(v),
        p.add_spec(v).sub_spec(v) == p,
{
}

/// The vector from `q` to `p` moves `q` onto `p`, for coordinate types where
/// `y + (x - y)` is `x` (every primitive integer type).
pub proof fn lemma_point2_sub_then_add<T: Add<Output = T> + Sub<Output = T>, U>(
    p: Point2D<T, U>,
    q: Point2D<T, U>,
)
    requires
        add_sub_inverse::<T>(),
        p.sub_req(q),
    ensures
        q.add_req(p.sub_spec(q)),
        q.add_spec(p.sub_spec(q)) == p,
{
}

/// Casting a point into a vector is subtracting the origin from it, for coordinate
/// types where subtracting zero is the identity (every primitive integer type).
pub proof fn lemma_point2_to_vector_is_sub_origin<T: Copy + Zero + Sub<Output = T>, U>(
    p: Point2D<T, U>,
)
    requires
        sub_zero_is_identity::<T>(),
    ensures
        p.sub_req(Point2D::origin()),
        p.sub_spec(Point2D::origin()) == p.to_vector(),
{
}

/// Moving a point by a vector and then back by the same vector gives the point
/// again, for coordinate types where adding and then subtracting is the identity
/// (every primitive integer type).
pub proof fn lemma_point3_add_then_sub<T: Add<Output = T> + Sub<Output = T>, U>(
    p: Point3D<T, U>,
    v: Vector3D<T, U>,
)
    requires
        add_sub_inverse::<T>(),
        p.add_req(v),
    ensures
        p.add_spec(v).sub_req(v),
        p.add_spec(v).sub_spec(v) == p,
{
}

/// The vector from `q` to `p` moves `q` onto `p`, for coordinate types where
/// `y + (x - y)` is `x` (every primitive integer type).
pub proof fn lemma_point3_sub_then_add<T: Add<Output = T> + Sub<Output = T>, U>(
    p: Point3D<T, U>,
    q: Point3D<T, U>,
)
    requires
        add_sub_inverse::<T>(),
        p.sub_req(q),
    ensures
        q.add_req(p.sub_spec(q)),
        q.add_spec(p.sub_spec(q)) == p,
{
}

/// Casting a point into a vector is subtracting the origin from it, for coordinate
/// types where subtracting zero is the identity (every primitive integer type).
pub proof fn lemma_point3_to_vector_is_sub_origin<T: Copy + Zero + Sub<Output = T>, U>(
    p: Point3D<T, U>,
)
    requires
        sub_zero_is_identity::<T>(),
    ensures
        p.sub_req(Point3D::origin()),
        p.sub_spec(Point3D::origin()) == p.to_vector(),
{
}

/// Interpolating at `t = 0` gives `self`, and at `t = 1` gives `other`; neither end
/// leaves the domain of the operators. This holds for coordinate types with the
/// identities `1 - 0 = 1`, `1 - 1 = 0`, `1 * x = x`, `0 * x = 0`, `x + 0 = 0 + x = x`
/// (every primitive integer type).
pub proof fn lemma_point2_lerp_ends<
    T: Copy + Zero + One + Sub<Output = T> + Mul<Output = T> + Add<Output = T>,
    U,
>(p: Point2D<T, U>, q: Point2D<T, U>)
    requires
        lerp_identities::<T>(),
    ensures
        lerp_scalar_req(p.x, q.x, T::zero_spec()),
        lerp_scalar_req(p.y, q.y, T::zero_spec()),
        lerp_scalar_req(p.x, q.x, T::one_spec()),
        lerp_scalar_req(p.y, q.y, T::one_spec()),
        p.lerp_spec(q, T::zero_spec()) == p,
        p.lerp_spec(q, T::one_spec()) == q,
{
    assert(T::one_spec().mul_spec(p.x) == p.x);
    assert(T::one_spec().mul_spec(p.y) == p.y);
    assert(T::zero_spec().mul_spec(q.x) == T::zero_spec());
    assert(T::zero_spec().mul_spec(q.y) == T::zero_spec());
    assert(T::zero_spec().mul_spec(p.x) == T::zero_spec());
    assert(T::zero_spec().mul_spec(p.y) == T::zero_spec());
    assert(T::one_spec().mul_spec(q.x) == q.x);
    assert(T::one_spec().mul_spec(q.y) == q.y);
}

/// Interpolating at `t = 0` gives `self`, and at `t = 1` gives `other`; neither end
/// leaves the domain of the operators (see `lemma_point2_lerp_ends`).
pub proof fn lemma_point3_lerp_ends<
    T: Copy + Zero + One + Sub<Output = T> + Mul<Output = T> + Add<Output = T>,
    U,
>(p: Point3D<T, U>, q: Point3D<T, U>)
    requires
        lerp_identities::<T>(),
    ensures
        lerp_scalar_req(p.x, q.x, T::zero_spec()),
        lerp_scalar_req(p.y, q.y, T::zero_spec()),
        lerp_scalar_req(p.z, q.z, T::zero_spec()),
        lerp_scalar_req(p.x, q.x, T::one_spec()),
        lerp_scalar_req(p.y, q.y, T::one_spec()),
        lerp_scalar_req(p.z, q.z, T::one_spec()),
        p.lerp_spec(q, T::zero_spec()) == p,
        p.lerp_spec(q, T::one_spec()) == q,
{
    assert(T::one_spec().mul_spec(p.x) == p.x);
    assert(T::one_spec().mul_spec(p.y) == p.y);
    assert(T::one_spec().mul_spec(p.z) == p.z);
    assert(T::zero_spec().mul_spec(q.x) == T::zero_spec());
    assert(T::zero_spec().mul_spec(q.y) == T::zero_spec());
    assert(T::zero_spec().mul_spec(q.z) == T::zero_spec());
    assert(T::zero_spec().mul_spec(p.x) == T::zero_spec());
    assert(T::zero_spec().mul_spec(p.y) == T::zero_spec());
    assert(T::zero_spec().mul_spec(p.z) == T::zero_spec());
    assert(T::one_spec().mul_spec(q.x) == q.x);
    assert(T::one_spec().mul_spec(q.y) == q.y);
    assert(T::one_spec().mul_spec(q.z) == q.z);
}

/// Scaling a point by a non-zero factor and dividing it by the same factor gives
/// the point again, for coordinate types where that holds of each value (every
/// primitive integer type).
pub proof fn lemma_point2_mul_then_div<T: Copy + Zero + Mul<Output = T> + Div<Output = T>, U>(
    p: Point2D<T, U>,
    s: T,
)
    requires
        mul_div_inverse::<T>(),
        s != T::zero_spec(),
        p.mul_req(s),
    ensures
        p.mul_spec(s).div_req(s),
        p.mul_spec(s).div_spec(s) == p,
{
}

/// Converting a point to another unit by a non-zero scale factor and back by the
/// same factor gives the point again (see `lemma_point2_mul_then_div`).
pub proof fn lemma_point2_scale_round_trip<
    T: Copy + Zero + Mul<Output = T> + Div<Output = T>,
    U1,
    U2,
>(p: Point2D<T, U1>, s: Scale<T, U1, U2>)
    requires
        mul_div_inverse::<T>(),
        s.0 != T::zero_spec(),
        p.mul_req(s),
    ensures
        p.mul_spec(s).div_req(s),
        p.mul_spec(s).div_spec(s) == p,
{
}

/// Scaling a point by a non-zero factor and dividing it by the same factor gives
/// the point again, for coordinate types where that holds of each value (every
/// primitive integer type).
pub proof fn lemma_point3_mul_then_div<T: Copy + Zero + Mul<Output = T> + Div<Output = T>, U>(
    p: Point3D<T, U>,
    s: T,
)
    requires
        mul_div_inverse::<T>(),
        s != T::zero_spec(),
        p.mul_req(s),
    ensures
        p.mul_spec(s).div_req(s),
        p.mul_spec(s).div_spec(s) == p,
{
}

/// Converting a point to another unit by a non-zero scale factor and back by the
/// same factor gives the point again (see `lemma_point3_mul_then_div`).
pub proof fn lemma_point3_scale_round_trip<
    T: Copy + Zero + Mul<Output = T> + Div<Output = T>,
    U1,
    U2,
>(p: Point3D<T, U1>, s: Scale<T, U1, U2>)
    requires
        mul_div_inverse::<T>(),
        s.0 != T::zero_spec(),
        p.mul_req(s),
    ensures
        p.mul_spec(s).div_req(s),
        p.mul_spec(s).div_spec(s) == p,
{
}

proof fn lemma_le_reflexive<T: PartialOrd>(x: T)
    requires
        obeys_partial_cmp_spec_properties::<T>(),
        comparable(x, x),
    ensures
        x.is_le(&x),
        x.is_ge(&x),
{
    reveal(obeys_partial_cmp_spec_properties);
}

proof fn lemma_ge_is_le_swapped<T: PartialOrd>(x: T, y: T)
    requires
        obeys_partial_cmp_spec_properties::<T>(),
    ensures
        x.is_ge(&y) <==> y.is_le(&x),
        comparable(x, y) <==> comparable(y, x),
{
    reveal(obeys_partial_cmp_spec_properties);
    reveal(obeys_eq_spec_properties);
    assert(x.partial_cmp_spec(&y) is Some && !x.is_le(&y) ==> x.is_ge(&y));
}

proof fn lemma_clamp_scalar<T: PartialOrd>(x: T, s: T, e: T)
    requires
        obeys_partial_cmp_spec_properties::<T>(),
        comparable(s, s),
        comparable(e, e),
        s.is_le(&e),
    ensures
        s.is_le(&min_spec(max_spec(x, s), e)),
        min_spec(max_spec(x, s), e).is_le(&e),
        s.is_le(&x) && x.is_le(&e) ==> min_spec(max_spec(x, s), e) == x,
{
    lemma_le_reflexive(s);
    lemma_le_reflexive(e);
    lemma_ge_is_le_swapped(x, s);
}

/// Clamping a coordinate between `start` and `end`, where `start <= end`, gives a
/// value between them, and leaves a coordinate already between them unchanged. The
/// ordering only has to obey the laws of a partial order (vstd's
/// `obeys_partial_cmp_spec_properties`), with `start` and `end` comparable to
/// themselves (for floats: not NaN).
pub proof fn lemma_point2_clamp_bounds<T: PartialOrd + Copy, U>(
    p: Point2D<T, U>,
    start: Point2D<T, U>,
    end: Point2D<T, U>,
)
    requires
        obeys_partial_cmp_spec_properties::<T>(),
        comparable(start.x, start.x) && comparable(end.x, end.x) && start.x.is_le(&end.x),
        comparable(start.y, start.y) && comparable(end.y, end.y) && start.y.is_le(&end.y),
    ensures
        ({
            let c = p.max_spec(start).min_spec(end);
            &&& start.x.is_le(&c.x) && c.x.is_le(&end.x)
            &&& start.y.is_le(&c.y) && c.y.is_le(&end.y)
            &&& start.x.is_le(&p.x) && p.x.is_le(&end.x) ==> c.x == p.x
            &&& start.y.is_le(&p.y) && p.y.is_le(&end.y) ==> c.y == p.y
        }),
{
    lemma_clamp_scalar(p.x, start.x, end.x);
    lemma_clamp_scalar(p.y, start.y, end.y);
}

/// Clamping a coordinate between `start` and `end`, where `start <= end`, gives a
/// value between them, and leaves a coordinate already between them unchanged (see
/// `lemma_point2_clamp_bounds`).
pub proof fn lemma_point3_clamp_bounds<T: PartialOrd + Copy, U>(
    p: Point3D<T, U>,
    start: Point3D<T, U>,
    end: Point3D<T, U>,
)
    requires
        obeys_partial_cmp_spec_properties::<T>(),
        comparable(start.x, start.x) && comparable(end.x, end.x) && start.x.is_le(&end.x),
        comparable(start.y, start.y) && comparable(end.y, end.y) && start.y.is_le(&end.y),
        comparable(start.z, start.z) && comparable(end.z, end.z) && start.z.is_le(&end.z),
    ensures
        ({
            let c = p.max_spec(start).min_spec(end);
            &&& start.x.is_le(&c.x) && c.x.is_le(&end.x)
            &&& start.y.is_le(&c.y) && c.y.is_le(&end.y)
            &&& start.z.is_le(&c.z) && c.z.is_le(&end.z)
            &&& start.x.is_le(&p.x) && p.x.is_le(&end.x) ==> c.x == p.x
            &&& start.y.is_le(&p.y) && p.y.is_le(&end.y) ==> c.y == p.y
            &&& start.z.is_le(&p.z) && p.z.is_le(&end.z) ==> c.z == p.z
        }),
{
    lemma_clamp_scalar(p.x, start.x, end.x);
    lemma_clamp_scalar(p.y, start.y, end.y);
    lemma_clamp_scalar(p.z, start.z, end.z);
}

proof fn lemma_min_max_scalar<T: PartialOrd>(x: T, y: T)
    requires
        obeys_partial_cmp_spec_properties::<T>(),
        comparable(x, x),
        comparable(y, y),
        comparable(x, y),
    ensures
        min_spec(x, y).is_le(&x),
        min_spec(x, y).is_le(&y),
        x.is_le(&max_spec(x, y)),
        y.is_le(&max_spec(x, y)),
        obeys_concrete_eq::<T>() ==> min_spec(x, y) == min_spec(y, x),
        obeys_concrete_eq::<T>() ==> max_spec(x, y) == max_spec(y, x),
{
    reveal(obeys_partial_cmp_spec_properties);
    reveal(obeys_eq_spec_properties);
    reveal(obeys_concrete_eq);
    lemma_le_reflexive(x);
    lemma_le_reflexive(y);
    lemma_ge_is_le_swapped(x, y);
    lemma_ge_is_le_swapped(y, x);
}

/// A point's minimum and maximum with itself are the point.
pub proof fn lemma_point2_min_max_idempotent<T: PartialOrd, U>(p: Point2D<T, U>)
    ensures
        p.min_spec(p) == p,
        p.max_spec(p) == p,
{
}

/// A point's minimum and maximum with itself are the point.
pub proof fn lemma_point3_min_max_idempotent<T: PartialOrd, U>(p: Point3D<T, U>)
    ensures
        p.min_spec(p) == p,
        p.max_spec(p) == p,
{
}

/// The componentwise minimum of two points is below both in each coordinate, and
/// the componentwise maximum above both, where the ordering obeys the laws of a
/// partial order and the coordinates compared are comparable (for floats: not
/// NaN). Where `==` on the coordinates is equality of values, minimum and maximum
/// do not depend on the order of the arguments; otherwise they may (for floats,
/// `0.0` and `-0.0` compare equal, and `min` picks the first).
pub proof fn lemma_point2_min_max_bounds<T: PartialOrd, U>(p: Point2D<T, U>, q: Point2D<T, U>)
    requires
        obeys_partial_cmp_spec_properties::<T>(),
        comparable(p.x, p.x) && comparable(q.x, q.x) && comparable(p.x, q.x),
        comparable(p.y, p.y) && comparable(q.y, q.y) && comparable(p.y, q.y),
    ensures
        p.min_spec(q).x.is_le(&p.x) && p.min_spec(q).x.is_le(&q.x),
        p.min_spec(q).y.is_le(&p.y) && p.min_spec(q).y.is_le(&q.y),
        p.x.is_le(&p.max_spec(q).x) && q.x.is_le(&p.max_spec(q).x),
        p.y.is_le(&p.max_spec(q).y) && q.y.is_le(&p.max_spec(q).y),
        obeys_concrete_eq::<T>() ==> p.min_spec(q) == q.min_spec(p),
        obeys_concrete_eq::<T>() ==> p.max_spec(q) == q.max_spec(p),
{
    lemma_min_max_scalar(p.x, q.x);
    lemma_min_max_scalar(p.y, q.y);
}

/// The componentwise minimum of two points is below both in each coordinate, and
/// the componentwise maximum above both (see `lemma_point2_min_max_bounds`).
pub proof fn lemma_point3_min_max_bounds<T: PartialOrd, U>(p: Point3D<T, U>, q: Point3D<T, U>)
    requires
        obeys_partial_cmp_spec_properties::<T>(),
        comparable(p.x, p.x) && comparable(q.x, q.x) && comparable(p.x, q.x),
        comparable(p.y, p.y) && comparable(q.y, q.y) && comparable(p.y, q.y),
        comparable(p.z, p.z) && comparable(q.z, q.z) && comparable(p.z, q.z),
    ensures
        p.min_spec(q).x.is_le(&p.x) && p.min_spec(q).x.is_le(&q.x),
        p.min_spec(q).y.is_le(&p.y) && p.min_spec(q).y.is_le(&q.y),
        p.min_spec(q).z.is_le(&p.z) && p.min_spec(q).z.is_le(&q.z),
        p.x.is_le(&p.max_spec(q).x) && q.x.is_le(&p.max_spec(q).x),
        p.y.is_le(&p.max_spec(q).y) && q.y.is_le(&p.max_spec(q).y),
        p.z.is_le(&p.max_spec(q).z) && q.z.is_le(&p.max_spec(q).z),
        obeys_concrete_eq::<T>() ==> p.min_spec(q) == q.min_spec(p),
        obeys_concrete_eq::<T>() ==> p.max_spec(q) == q.max_spec(p),
{
    lemma_min_max_scalar(p.x, q.x);
    lemma_min_max_scalar(p.y, q.y);
    lemma_min_max_scalar(p.z, q.z);
}

/// Where the coordinates' `==` is equality of values, two points are `==` exactly
/// when they are the same point.
pub proof fn lemma_point2_eq_is_equality<T: PartialEq, U>(p: Point2D<T, U>, q: Point2D<T, U>)
    requires
        obeys_concrete_eq::<T>(),
    ensures
        Point2D::<T, U>::obeys_eq_spec(),
        p.eq_spec(&q) <==> p == q,
{
    reveal(obeys_concrete_eq);
}

/// Where the coordinates' `==` is equality of values, two points are `==` exactly
/// when they are the same point.
pub proof fn lemma_point3_eq_is_equality<T: PartialEq, U>(p: Point3D<T, U>, q: Point3D<T, U>)
    requires
        obeys_concrete_eq::<T>(),
    ensures
        Point3D::<T, U>::obeys_eq_spec(),
        p.eq_spec(&q) <==> p == q,
{
    reveal(obeys_concrete_eq);
}

} // verus!
