// Coordinates are in tenths of a yard throughout.
use pbc2::{PBCColor, PBCMotion, PBCPlayer, PBCRole, PBCRoute, Point2D};

fn make_test_role() -> PBCRole {
    PBCRole::from_strings("Quarterback", "QB  ").unwrap()
}

#[test]
fn test_player_creation() {
    let player = PBCPlayer::new(make_test_role(), PBCColor::new(255, 0, 0), Point2D::new(0, 0));

    assert_eq!(player.pos, Point2D::zero());
    assert_eq!(player.name, "");
    assert_eq!(player.nr, 0);
    assert!(player.route.is_none());
    assert!(player.motion.is_none());
}

#[test]
fn test_player_with_details() {
    let player = PBCPlayer::with_details(
        make_test_role(),
        PBCColor::new(255, 0, 0),
        Point2D::new(50, 0),
        "Tom Brady",
        12,
    );

    assert_eq!(player.name, "Tom Brady");
    assert_eq!(player.nr, 12);
    assert_eq!(player.pos, Point2D::new(50, 0));
}

#[test]
fn test_route_management() {
    let mut player =
        PBCPlayer::new(make_test_role(), PBCColor::new(255, 0, 0), Point2D::zero());

    let route = PBCRoute::with_name("Post", "P");
    player.set_route(route.clone());
    assert!(player.route.is_some());

    player.reset_route();
    assert!(player.route.is_none());
}

#[test]
fn test_option_routes() {
    let mut player =
        PBCPlayer::new(make_test_role(), PBCColor::new(255, 0, 0), Point2D::zero());

    player.add_option_route(PBCRoute::with_name("Slant", "S"));
    player.add_option_route(PBCRoute::with_name("Fade", "F"));

    assert_eq!(player.option_routes.len(), 2);

    player.reset_option_routes();
    assert_eq!(player.option_routes.len(), 0);
}

#[test]
fn test_alternative_routes() {
    let mut player =
        PBCPlayer::new(make_test_role(), PBCColor::new(255, 0, 0), Point2D::zero());

    let route1 = PBCRoute::with_name("Go", "G");
    let route2 = PBCRoute::with_name("Comeback", "C");

    player.set_alternative_route(1, route1);
    player.set_alternative_route(2, route2);

    assert!(player.alternative_route(1).is_some());
    assert!(player.alternative_route(2).is_some());
    assert!(player.alternative_route(3).is_none());

    player.reset_alternative_route(1);
    assert!(player.alternative_route(1).is_none());
}

#[test]
fn test_motion() {
    let mut player =
        PBCPlayer::new(make_test_role(), PBCColor::new(255, 0, 0), Point2D::zero());

    let motion = PBCMotion::new();
    player.set_motion(motion);
    assert!(player.motion.is_some());

    player.reset_motion();
    assert!(player.motion.is_none());
}
