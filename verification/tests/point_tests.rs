// Coordinates are in tenths of a yard throughout.
use pbc2::Point2D;

#[test]
fn test_point_creation() {
    let p = Point2D::new(100, 200);
    assert_eq!(p.x, 100);
    assert_eq!(p.y, 200);
}

#[test]
fn point_test_from_tuple() {
    let p: Point2D = (100, 200).into();
    assert_eq!(p.x, 100);
    assert_eq!(p.y, 200);
}

#[test]
fn test_to_tuple() {
    let p = Point2D::new(100, 200);
    let tuple: (i64, i64) = p.into();
    assert_eq!(tuple, (100, 200));
}

#[test]
fn test_distance() {
    let p1 = Point2D::new(0, 0);
    let p2 = Point2D::new(30, 40);
    assert_eq!(p1.distance_squared(&p2), 2500);
}

#[test]
fn test_zero() {
    let zero = Point2D::zero();
    assert_eq!(zero.x, 0);
    assert_eq!(zero.y, 0);
}
