use euclid::default::{Point2D, Point3D};
use euclid::{point2, point3, vec2, Scale};

#[derive(Debug)]
pub enum Mm {}
#[derive(Debug)]
pub enum Cm {}

pub type Point2DMm<T> = euclid::Point2D<T, Mm>;
pub type Point2DCm<T> = euclid::Point2D<T, Cm>;

#[test]
pub fn test_scalar_mul() {
    let p1: Point2D<f32> = Point2D::new(3.0, 5.0);

    let result = p1 * 5.0;

    assert_eq!(result, Point2D::new(15.0, 25.0));
}

#[test]
pub fn test_min() {
    let p1 = Point2D::new(1.0, 3.0);
    let p2 = Point2D::new(2.0, 2.0);

    let result = p1.min(p2);

    assert_eq!(result, Point2D::new(1.0, 2.0));
}

#[test]
pub fn test_max() {
    let p1 = Point2D::new(1.0, 3.0);
    let p2 = Point2D::new(2.0, 2.0);

    let result = p1.max(p2);

    assert_eq!(result, Point2D::new(2.0, 3.0));
}

#[test]
pub fn test_mint() {
    let p1 = Point2D::new(1.0, 3.0);
    let pm: mint::Point2<_> = p1.into();
    let p2 = Point2D::from(pm);

    assert_eq!(p1, p2);
}

#[test]
pub fn test_add() {
    let p1 = Point2DMm::new(1.0, 2.0);
    let p2 = vec2(3.0, 4.0);

    let result = p1 + p2;

    assert_eq!(result, Point2DMm::new(4.0, 6.0));
}

#[test]
pub fn test_add_assign() {
    let mut p1 = Point2DMm::new(1.0, 2.0);
    p1 += vec2(3.0, 4.0);

    assert_eq!(p1, Point2DMm::new(4.0, 6.0));
}

#[test]
pub fn test_typed_scalar_mul() {
    let p1 = Point2DMm::new(1.0, 2.0);
    let cm_per_mm: Scale<f32, Mm, Cm> = Scale::new(0.1);

    let result = p1 * cm_per_mm;

    assert_eq!(result, Point2DCm::new(0.1, 0.2));
}

#[test]
pub fn test_conv_vector() {
    for i in 0..100 {
        // We don't care about these values as long as they are not the same.
        let x = i as f32 * 0.012345;
        let y = i as f32 * 0.987654;
        let p: Point2D<f32> = point2(x, y);
        assert_eq!(p.to_vector().to_point(), p);
    }
}

#[test]
pub fn test_swizzling() {
    let p: Point2D<i32> = point2(1, 2);
    assert_eq!(p.yx(), point2(2, 1));
}

#[test]
pub fn point_test_min() {
    let p1 = Point3D::new(1.0, 3.0, 5.0);
    let p2 = Point3D::new(2.0, 2.0, -1.0);

    let result = p1.min(p2);

    assert_eq!(result, Point3D::new(1.0, 2.0, -1.0));
}

#[test]
pub fn point_test_max() {
    let p1 = Point3D::new(1.0, 3.0, 5.0);
    let p2 = Point3D::new(2.0, 2.0, -1.0);

    let result = p1.max(p2);

    assert_eq!(result, Point3D::new(2.0, 3.0, 5.0));
}

#[test]
pub fn point_test_conv_vector() {
    for i in 0..100 {
        // We don't care about these values as long as they are not the same.
        let x = i as f32 * 0.012345;
        let y = i as f32 * 0.987654;
        let z = x * y;
        let p: Point3D<f32> = point3(x, y, z);
        assert_eq!(p.to_vector().to_point(), p);
    }
}

#[test]
pub fn point_test_swizzling() {
    let p: euclid::default::Point3D<i32> = point3(1, 2, 3);
    assert_eq!(p.xy(), point2(1, 2));
    assert_eq!(p.xz(), point2(1, 3));
    assert_eq!(p.yz(), point2(2, 3));
}

#[test]
pub fn point_test_mint() {
    let p1 = Point3D::new(1.0, 3.0, 5.0);
    let pm: mint::Point3<_> = p1.into();
    let p2 = Point3D::from(pm);

    assert_eq!(p1, p2);
}
