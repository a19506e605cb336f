use std::collections::hash_map::DefaultHasher;
use std::hash::{Hash, Hasher};
use euclid::{
    point2, point3, vec2, vec3, ApproxEq, Length, Point2D, Point3D, Scale, Size2D, Size3D,
    UnknownUnit, Vector2D,
};

#[derive(Debug, Clone, Copy, PartialEq, Eq, Hash)]
pub struct Mm;
#[derive(Debug, Clone, Copy, PartialEq, Eq, Hash)]
pub struct Cm;

type P2 = Point2D<i32, Mm>;
type P3 = Point3D<i32, Mm>;

#[test]
fn test_origin_and_zero() {
    assert_eq!(P2::origin(), point2(0, 0));
    assert_eq!(P2::zero(), P2::origin());
    assert_eq!(P3::origin(), point3(0, 0, 0));
    assert_eq!(P3::zero(), P3::origin());
    assert_eq!(Point2D::<u64, Mm>::origin(), point2(0u64, 0u64));
}

#[test]
fn test_constructors() {
    let a = P2::new(1, -8);
    assert_eq!((a.x, a.y), (1, -8));
    let b = P2::from_lengths(Length::new(4), Length::new(5));
    assert_eq!(b, point2(4, 5));
    let c = P3::from_lengths(Length::new(4), Length::new(5), Length::new(6));
    assert_eq!(c, point3(4, 5, 6));
    let u: Point2D<i32, UnknownUnit> = point2(7, 9);
    assert_eq!(P2::from_untyped(u), point2(7, 9));
    let u3: Point3D<i32, UnknownUnit> = point3(7, 9, 11);
    assert_eq!(P3::from_untyped(u3), point3(7, 9, 11));
}

#[test]
fn test_unit_casts() {
    let p: P2 = point2(1, -8);
    assert_eq!(p.x, p.to_untyped().x);
    assert_eq!(p.y, p.to_untyped().y);
    let q: Point2D<i32, Cm> = p.cast_unit();
    assert_eq!((q.x, q.y), (1, -8));
    let p3: P3 = point3(1, -8, 0);
    let q3: Point3D<i32, Cm> = p3.cast_unit();
    assert_eq!((q3.x, q3.y, q3.z), (1, -8, 0));
    assert_eq!(p3.to_untyped(), point3(1, -8, 0));
}

#[test]
fn test_arrays_and_tuples() {
    let p: P2 = point2(1, -8);
    assert_eq!(p.to_array(), [1, -8]);
    assert_eq!(p.to_tuple(), (1, -8));
    let a: [i32; 2] = p.into();
    assert_eq!(a, [1, -8]);
    let t: (i32, i32) = p.into();
    assert_eq!(t, (1, -8));
    assert_eq!(P2::from([3, 4]), point2(3, 4));
    assert_eq!(P2::from((3, 4)), point2(3, 4));

    let p3: P3 = point3(1, -8, 0);
    assert_eq!(p3.to_array(), [1, -8, 0]);
    assert_eq!(p3.to_tuple(), (1, -8, 0));
    assert_eq!(p3.to_array_4d(), [1, -8, 0, 1]);
    assert_eq!(p3.to_tuple_4d(), (1, -8, 0, 1));
    let a3: [i32; 3] = p3.into();
    assert_eq!(a3, [1, -8, 0]);
    let t3: (i32, i32, i32) = p3.into();
    assert_eq!(t3, (1, -8, 0));
    assert_eq!(P3::from([3, 4, 5]), point3(3, 4, 5));
    assert_eq!(P3::from((3, 4, 5)), point3(3, 4, 5));
}

#[test]
fn test_array_conversion_keeps_order_of_non_copy_values() {
    let p: Point2D<String, Mm> = Point2D::from([String::from("a"), String::from("b")]);
    assert_eq!(p.x, "a");
    assert_eq!(p.y, "b");
    let q: Point3D<String, Mm> =
        Point3D::from([String::from("a"), String::from("b"), String::from("c")]);
    assert_eq!((q.x.as_str(), q.y.as_str(), q.z.as_str()), ("a", "b", "c"));
}

#[test]
fn test_dimension_changes() {
    let p: P2 = point2(1, 2);
    assert_eq!(p.extend(3), point3(1, 2, 3));
    assert_eq!(p.to_3d(), point3(1, 2, 0));
    let q: P3 = point3(1, 2, 3);
    assert_eq!(q.to_2d(), point2(1, 2));
    assert_eq!(q.to_2d(), q.xy());
    assert_eq!(p.extend(9).xy(), p);
}

#[test]
fn test_yx() {
    let p: P2 = point2(1, -8);
    assert_eq!(p.yx(), point2(-8, 1));
    assert_eq!(p.yx().yx(), p);
}

#[test]
fn test_lerp_integer() {
    let first: P2 = point2(0, 10);
    let last: P2 = point2(8, -4);
    assert_eq!(first.lerp(last, -1), point2(-8, 24));
    assert_eq!(first.lerp(last, 0), point2(0, 10));
    assert_eq!(first.lerp(last, 1), point2(8, -4));
    assert_eq!(first.lerp(last, 2), point2(16, -18));

    let first3: P3 = point3(0, 10, -1);
    let last3: P3 = point3(8, -4, 0);
    assert_eq!(first3.lerp(last3, -1), point3(-8, 24, -2));
    assert_eq!(first3.lerp(last3, 0), point3(0, 10, -1));
    assert_eq!(first3.lerp(last3, 1), point3(8, -4, 0));
    assert_eq!(first3.lerp(last3, 2), point3(16, -18, 1));
}

#[test]
fn test_min_max_clamp_integer() {
    let p: P2 = point2(1, 3);
    let q: P2 = point2(2, 2);
    assert_eq!(p.min(q), point2(1, 2));
    assert_eq!(p.max(q), point2(2, 3));
    let start: P2 = point2(0, 0);
    let end: P2 = point2(3, 3);
    assert_eq!(point2::<i32, Mm>(5, -5).clamp(start, end), point2(3, 0));
    assert_eq!(point2::<i32, Mm>(1, 2).clamp(start, end), point2(1, 2));

    let p3: P3 = point3(1, 3, 5);
    let q3: P3 = point3(2, 2, -1);
    assert_eq!(p3.min(q3), point3(1, 2, -1));
    assert_eq!(p3.max(q3), point3(2, 3, 5));
    assert_eq!(
        point3::<i32, Mm>(5, -5, 2).clamp(point3(0, 0, 0), point3(3, 3, 3)),
        point3(3, 0, 2)
    );
}

#[test]
fn test_min_max_with_unordered_values() {
    // With a NaN the comparison fails, and the second argument is picked.
    let p: Point2D<f64, Mm> = point2(f64::NAN, 1.0);
    let q: Point2D<f64, Mm> = point2(2.0, 0.5);
    let m = p.min(q);
    assert_eq!((m.x, m.y), (2.0, 0.5));
    let n = p.max(q);
    assert_eq!((n.x, n.y), (2.0, 1.0));
}

#[test]
fn test_clamp_bounds_law() {
    let start: P2 = point2(-2, 4);
    let end: P2 = point2(2, 9);
    for x in -5..6 {
        for y in 0..12 {
            let c = point2::<i32, Mm>(x, y).clamp(start, end);
            assert!(start.x <= c.x && c.x <= end.x);
            assert!(start.y <= c.y && c.y <= end.y);
            if -2 <= x && x <= 2 && 4 <= y && y <= 9 {
                assert_eq!(c, point2(x, y));
            }
        }
    }
}

#[test]
fn test_add_and_sub() {
    let p: P2 = point2(1, 2);
    assert_eq!(p + vec2(3, 4), point2(4, 6));
    assert_eq!(p - vec2(3, 4), point2(-2, -2));
    let d: Vector2D<i32, Mm> = point2::<i32, Mm>(5, 7) - p;
    assert_eq!((d.x, d.y), (4, 5));
    let mut q = p;
    q -= vec2(1, 1);
    assert_eq!(q, point2(0, 1));
    q += vec2(1, 1);
    assert_eq!(q, p);

    let p3: P3 = point3(1, 2, 3);
    assert_eq!(p3 + vec3(3, 4, 5), point3(4, 6, 8));
    assert_eq!(p3 - vec3(3, 4, 5), point3(-2, -2, -2));
    let d3 = point3::<i32, Mm>(5, 7, 9) - p3;
    assert_eq!((d3.x, d3.y, d3.z), (4, 5, 6));
    let mut q3 = p3;
    q3 += vec3(1, 1, 1);
    assert_eq!(q3, point3(2, 3, 4));
    q3 -= vec3(1, 1, 1);
    assert_eq!(q3, p3);
}

#[test]
fn test_add_size() {
    let p: P2 = point2(1, 2);
    let s: Size2D<i32, Mm> = Size2D::new(10, 20);
    assert_eq!(p.add_size(&s), point2(11, 22));
    assert_eq!(p + s, point2(11, 22));
    let p3: P3 = point3(1, 2, 3);
    let s3: Size3D<i32, Mm> = Size3D::new(10, 20, 30);
    assert_eq!(p3.add_size(&s3), point3(11, 22, 33));
}

#[test]
fn test_vector_round_trip_law() {
    let p: P2 = point2(-3, 7);
    assert_eq!(p.to_vector().to_point(), p);
    let v = p - P2::origin();
    assert_eq!((v.x, v.y), (p.to_vector().x, p.to_vector().y));
    let q: P2 = point2(10, -1);
    assert_eq!(q + (p - q), p);
    assert_eq!((p + vec2(5, 6)) - vec2(5, 6), p);
    let p3: P3 = point3(-3, 7, 1);
    assert_eq!(p3.to_vector().to_point(), p3);
    let v3 = p3 - P3::origin();
    assert_eq!((v3.x, v3.y, v3.z), (-3, 7, 1));
}

#[test]
fn test_mul_and_div() {
    let p: P2 = point2(3, -5);
    assert_eq!(p * 4, point2(12, -20));
    assert_eq!((p * 4) / 4, p);
    assert_eq!(point2::<i32, Mm>(7, -7) / 2, point2(3, -3));
    let mut q = p;
    q *= 2;
    assert_eq!(q, point2(6, -10));
    q /= 2;
    assert_eq!(q, p);

    let p3: P3 = point3(3, -5, 1);
    assert_eq!(p3 * 4, point3(12, -20, 4));
    assert_eq!((p3 * -4) / -4, p3);
    assert_eq!(point3::<i32, Mm>(7, -7, 8) / 2, point3(3, -3, 4));
}

#[test]
fn test_scale() {
    let to_cm: Scale<i32, Mm, Cm> = Scale::new(10);
    assert_eq!(to_cm.get(), 10);
    let p: P2 = point2(1, 2);
    let c: Point2D<i32, Cm> = p * to_cm;
    assert_eq!((c.x, c.y), (10, 20));
    let back: P2 = c / to_cm;
    assert_eq!(back, p);
    let p3: P3 = point3(1, 2, 3);
    let c3: Point3D<i32, Cm> = p3 * to_cm;
    assert_eq!((c3.x, c3.y, c3.z), (10, 20, 30));
    let back3: P3 = c3 / to_cm;
    assert_eq!(back3, p3);
}

#[test]
fn test_round_ceil_floor_integer() {
    let p: P2 = point2(-1, 8);
    assert_eq!(p.round(), p);
    assert_eq!(p.ceil(), p);
    assert_eq!(p.floor(), p);
    let p3: Point3D<u64, Mm> = point3(1, 8, 9);
    assert_eq!(p3.round(), p3);
    assert_eq!(p3.ceil(), p3);
    assert_eq!(p3.floor(), p3);
}

#[test]
fn test_try_cast() {
    let p: P2 = point2(3, 250);
    let q: Option<Point2D<u8, Mm>> = p.try_cast();
    assert_eq!(q, Some(point2(3u8, 250u8)));
    let r: Option<Point2D<u8, Mm>> = point2::<i32, Mm>(3, 300).try_cast();
    assert_eq!(r, None);
    let s: Option<Point2D<u32, Mm>> = point2::<i32, Mm>(-1, 3).try_cast();
    assert_eq!(s, None);
    let f: Point2D<f32, Mm> = point2(1.5, -2.7);
    let t: Option<Point2D<i32, Mm>> = f.try_cast();
    assert_eq!(t, Some(point2(1, -2)));

    let p3: P3 = point3(3, 250, 7);
    let q3: Option<Point3D<u8, Mm>> = p3.try_cast();
    assert_eq!(q3, Some(point3(3u8, 250u8, 7u8)));
    let r3: Option<Point3D<u8, Mm>> = point3::<i32, Mm>(3, 5, -7).try_cast();
    assert_eq!(r3, None);
}

#[test]
fn test_try_from_components() {
    assert_eq!(P2::try_from_components(Some(1), Some(2)), Some(point2(1, 2)));
    assert_eq!(P2::try_from_components(None, Some(2)), None);
    assert_eq!(P2::try_from_components(Some(1), None), None);
    assert_eq!(P3::try_from_components(Some(1), Some(2), Some(3)), Some(point3(1, 2, 3)));
    assert_eq!(P3::try_from_components(Some(1), None, Some(3)), None);
}

#[test]
fn test_equality() {
    let p: P2 = point2(1, 2);
    assert!(p == point2(1, 2));
    assert!(p != point2(1, 3));
    assert!(p != point2(0, 2));
    let p3: P3 = point3(1, 2, 3);
    assert!(p3 == point3(1, 2, 3));
    assert!(p3 != point3(1, 2, 4));
    let nan: Point2D<f64, Mm> = point2(f64::NAN, 0.0);
    assert!(nan != nan);
}

#[test]
fn test_default_and_clone() {
    assert_eq!(P2::default(), point2(0, 0));
    assert_eq!(P3::default(), point3(0, 0, 0));
    let s: Point2D<String, Mm> = Point2D::new(String::from("a"), String::from("b"));
    let t = s.clone();
    assert_eq!(s, t);
}

#[derive(Debug, Clone, Copy, PartialEq)]
struct Tolerant(i32);

impl ApproxEq<Tolerant> for Tolerant {
    fn approx_epsilon() -> Tolerant {
        Tolerant(1)
    }

    fn approx_eq(&self, other: &Self) -> bool {
        self.approx_eq_eps(other, &Tolerant(1))
    }

    fn approx_eq_eps(&self, other: &Self, eps: &Tolerant) -> bool {
        (self.0 - other.0).abs() <= eps.0
    }
}

#[test]
fn test_approx_eq() {
    let p: Point2D<Tolerant, Mm> = point2(Tolerant(1), Tolerant(5));
    assert!(p.approx_eq(&point2(Tolerant(2), Tolerant(4))));
    assert!(!p.approx_eq(&point2(Tolerant(3), Tolerant(5))));
    assert!(!p.approx_eq(&point2(Tolerant(1), Tolerant(7))));
    assert!(p.approx_eq_eps(&point2(Tolerant(3), Tolerant(7)), &point2(Tolerant(2), Tolerant(2))));
    assert_eq!(Point2D::<Tolerant, Mm>::approx_epsilon(), point2(Tolerant(1), Tolerant(1)));

    let q: Point3D<Tolerant, Mm> = point3(Tolerant(1), Tolerant(5), Tolerant(0));
    assert!(q.approx_eq(&point3(Tolerant(2), Tolerant(4), Tolerant(1))));
    assert!(!q.approx_eq(&point3(Tolerant(2), Tolerant(4), Tolerant(2))));
    assert!(q.approx_eq_eps(
        &point3(Tolerant(3), Tolerant(5), Tolerant(2)),
        &point3(Tolerant(2), Tolerant(0), Tolerant(2))
    ));
    assert_eq!(
        Point3D::<Tolerant, Mm>::approx_epsilon(),
        point3(Tolerant(1), Tolerant(1), Tolerant(1))
    );
}

#[test]
fn test_hash_of_equal_points() {
    let h = |p: &P2| {
        let mut s = DefaultHasher::new();
        p.hash(&mut s);
        s.finish()
    };
    assert_eq!(h(&point2(1, 2)), h(&point2(1, 2)));
    // A point hashes its coordinates in order, and nothing of its unit.
    let mut s = DefaultHasher::new();
    1i32.hash(&mut s);
    2i32.hash(&mut s);
    assert_eq!(h(&point2(1, 2)), s.finish());
    let mut s3 = DefaultHasher::new();
    point3::<i32, Mm>(4, 5, 6).hash(&mut s3);
    let mut t3 = DefaultHasher::new();
    4i32.hash(&mut t3);
    5i32.hash(&mut t3);
    6i32.hash(&mut t3);
    assert_eq!(s3.finish(), t3.finish());
}

pub enum NoTraits {}

#[test]
fn test_hash_needs_nothing_of_the_unit() {
    let p: Point2D<i32, NoTraits> = point2(1, 2);
    let mut s = DefaultHasher::new();
    p.hash(&mut s);
    let mut t = DefaultHasher::new();
    point2::<i32, Mm>(1, 2).hash(&mut t);
    assert_eq!(s.finish(), t.finish());
}

#[test]
fn test_integer_laws_on_other_widths() {
    let p: Point2D<u8, Mm> = point2(200, 7);
    let q: Point2D<u8, Mm> = point2(3, 255);
    assert_eq!(p.lerp(q, 0), p);
    assert_eq!(p.lerp(q, 1), q);
    let a: Point3D<i8, Mm> = point3(-128, 127, 0);
    let b: Point3D<i8, Mm> = point3(127, -128, 5);
    assert_eq!(a.lerp(b, 0), a);
    assert_eq!(a.lerp(b, 1), b);

    let r: Point2D<u16, Mm> = point2(65535, 0);
    let v = r - Point2D::origin();
    assert_eq!((v.x, v.y), (65535, 0));

    let m: Point2D<i128, Mm> = point2(-7, 9);
    assert_eq!((m * -3) / -3, m);
    let n: Point3D<u32, Mm> = point3(7, 0, 11);
    assert_eq!((n * 5) / 5, n);
    let to_cm: Scale<u64, Mm, Cm> = Scale::new(3);
    let c: Point2D<u64, Cm> = point2::<u64, Mm>(4, 5) * to_cm;
    assert_eq!(c / to_cm, point2::<u64, Mm>(4, 5));
}

#[test]
fn test_min_max_commute_and_idempotent() {
    let p: Point2D<i64, Mm> = point2(-3, 8);
    let q: Point2D<i64, Mm> = point2(4, -9);
    assert_eq!(p.min(q), q.min(p));
    assert_eq!(p.max(q), q.max(p));
    assert_eq!(p.min(p), p);
    assert_eq!(p.max(p), p);
    // With floats, 0.0 and -0.0 compare equal, and `min` keeps the first.
    let z: Point2D<f64, Mm> = point2(0.0, 1.0);
    let nz: Point2D<f64, Mm> = point2(-0.0, 1.0);
    assert!(z.min(nz).x.is_sign_positive());
    assert!(nz.min(z).x.is_sign_negative());
}

#[test]
fn test_mint_round_trip_integer() {
    let p: Point2D<i32, Mm> = point2(-4, 9);
    let m: mint::Point2<i32> = p.into();
    assert_eq!((m.x, m.y), (-4, 9));
    assert_eq!(Point2D::<i32, Mm>::from(m), p);
    let p3: Point3D<i32, Mm> = point3(-4, 9, 1);
    let m3: mint::Point3<i32> = p3.into();
    assert_eq!((m3.x, m3.y, m3.z), (-4, 9, 1));
    assert_eq!(Point3D::<i32, Mm>::from(m3), p3);
}
