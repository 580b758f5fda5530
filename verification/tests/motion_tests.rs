// Coordinates are in tenths of a yard throughout.
use pbc2::{PBCMotion, PBCPath, Point2D};

#[test]
fn test_motion_creation() {
    let motion = PBCMotion::new();
    assert!(motion.movement.is_empty());
    assert_eq!(motion.motion_end_point, Point2D::zero());
}

#[test]
fn test_motion_with_paths() {
    let paths = vec![
        PBCPath::new(Point2D::new(50, 0)),
        PBCPath::new(Point2D::new(100, 0)),
    ];
    let motion = PBCMotion::with_paths(paths);

    assert_eq!(motion.movement.len(), 2);
    assert_eq!(motion.motion_end_point, Point2D::new(100, 0));
}

#[test]
fn test_add_path_updates_endpoint() {
    let mut motion = PBCMotion::new();

    motion.add_path(PBCPath::new(Point2D::new(50, 0)));
    assert_eq!(motion.motion_end_point, Point2D::new(50, 0));

    motion.add_path(PBCPath::new(Point2D::new(100, -20)));
    assert_eq!(motion.motion_end_point, Point2D::new(100, -20));

    assert_eq!(motion.paths().len(), 2);
}

#[test]
fn test_with_paths_empty() {
    let motion = PBCMotion::with_paths(vec![]);
    assert_eq!(motion.motion_end_point, Point2D::zero());
    assert!(motion.movement.is_empty());
}

#[test]
fn motion_test_default() {
    let motion = PBCMotion::default();
    assert_eq!(motion.motion_end_point, Point2D::zero());
    assert!(motion.movement.is_empty());
}
