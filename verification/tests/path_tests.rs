// Coordinates are in tenths of a yard throughout.
use pbc2::{PBCPath, Point2D};

#[test]
fn test_path_creation() {
    let path = PBCPath::new(Point2D::new(100, 200));
    assert_eq!(path.endpoint, Point2D::new(100, 200));
    assert_eq!(path.bezier_control_point, None);
    assert!(!path.is_curved());
}

#[test]
fn test_path_curved() {
    let path = PBCPath::new_curved(Point2D::new(100, 200), Point2D::new(50, 150));
    assert_eq!(path.endpoint, Point2D::new(100, 200));
    assert_eq!(path.bezier_control_point, Some(Point2D::new(50, 150)));
    assert!(path.is_curved());
}

#[test]
fn test_path_with_control() {
    let path = PBCPath::with_control(Point2D::new(100, 200), Some(Point2D::new(50, 150)));
    assert_eq!(path.endpoint, Point2D::new(100, 200));
    assert_eq!(path.bezier_control_point, Some(Point2D::new(50, 150)));
    assert!(path.is_curved());

    let straight = PBCPath::with_control(Point2D::new(100, 200), None);
    assert!(!straight.is_curved());
}

#[test]
fn test_direct_field_access() {
    let mut path = PBCPath::new(Point2D::new(100, 200));

    path.endpoint = Point2D::new(300, 400);
    path.bezier_control_point = Some(Point2D::new(200, 250));

    assert_eq!(path.endpoint, Point2D::new(300, 400));
    assert_eq!(path.bezier_control_point, Some(Point2D::new(200, 250)));
    assert!(path.is_curved());

    path.bezier_control_point = None;
    assert!(!path.is_curved());
}

#[test]
fn path_test_from_tuple() {
    let path = PBCPath::new((100, 200).into());
    assert_eq!(path.endpoint.x, 100);
    assert_eq!(path.endpoint.y, 200);
}
