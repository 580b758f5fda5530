// Coordinates are in tenths of a yard throughout.
use pbc2::{PBCPath, PBCRoute, Point2D};

#[test]
fn test_route_creation() {
    let paths = vec![
        PBCPath::new(Point2D::new(0, 50)),
        PBCPath::new(Point2D::new(100, 150)),
    ];
    let route = PBCRoute::new("Post", "P", paths);

    assert_eq!(route.name, "Post");
    assert_eq!(route.code_name, "P");
    assert_eq!(route.movement.len(), 2);
}

#[test]
fn test_route_with_name() {
    let route = PBCRoute::with_name("Slant", "S");
    assert_eq!(route.name, "Slant");
    assert_eq!(route.code_name, "S");
    assert!(route.movement.is_empty());
}

#[test]
fn route_test_add_path() {
    let mut route = PBCRoute::with_name("Go", "G");
    route.add_path(PBCPath::new(Point2D::new(0, 100)));
    route.add_path(PBCPath::new(Point2D::new(0, 200)));

    assert_eq!(route.paths().len(), 2);
    assert_eq!(route.paths()[0].endpoint, Point2D::new(0, 100));
    assert_eq!(route.paths()[1].endpoint, Point2D::new(0, 200));
}

#[test]
fn test_route_string_types() {
    let route1 = PBCRoute::with_name("Test", "T");
    let route2 = PBCRoute::with_name(String::from("Test").as_str(), String::from("T").as_str());
    assert_eq!(route1.name, route2.name);
    assert_eq!(route1.code_name, route2.code_name);
}
