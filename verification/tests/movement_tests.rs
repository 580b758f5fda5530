// Coordinates are in tenths of a yard throughout.
use pbc2::{PBCAbstractMovement, PBCPath, Point2D};

#[test]
fn test_movement_creation() {
    let movement = PBCAbstractMovement::new();
    assert!(movement.is_empty());
    assert_eq!(movement.len(), 0);
}

#[test]
fn test_movement_with_paths() {
    let paths = vec![
        PBCPath::new(Point2D::new(100, 0)),
        PBCPath::new(Point2D::new(100, 100)),
    ];
    let movement = PBCAbstractMovement::with_paths(paths);
    assert_eq!(movement.len(), 2);
    assert!(!movement.is_empty());
}

#[test]
fn movement_test_add_path() {
    let mut movement = PBCAbstractMovement::new();
    movement.add_path(PBCPath::new(Point2D::new(50, 50)));
    movement.add_path(PBCPath::new(Point2D::new(100, 100)));

    assert_eq!(movement.len(), 2);
    assert_eq!(movement.paths[0].endpoint, Point2D::new(50, 50));
    assert_eq!(movement.paths[1].endpoint, Point2D::new(100, 100));
}

#[test]
fn test_clear() {
    let mut movement =
        PBCAbstractMovement::with_paths(vec![PBCPath::new(Point2D::new(100, 0))]);
    assert!(!movement.is_empty());

    movement.clear();
    assert!(movement.is_empty());
}
