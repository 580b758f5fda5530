// Coordinates are in tenths of a yard throughout.
use pbc2::{PBCColor, PBCFormation, PBCMotion, PBCPlayer, PBCRole, PBCRoute, Point2D};

fn make_test_player(nr: u32) -> PBCPlayer {
    PBCPlayer::with_details(
        PBCRole::from_strings("Test", "T   ").unwrap(),
        PBCColor::new(255, 0, 0),
        Point2D::new(nr as i64 * 10, 0),
        format!("Player {}", nr).as_str(),
        nr,
    )
}

#[test]
fn test_formation_creation() {
    let formation = PBCFormation::new("I Formation");
    assert_eq!(formation.name.as_str(), "I Formation");
    assert_eq!(formation.player_count(), 0);
}

#[test]
fn test_formation_with_players() {
    let players = vec![make_test_player(1), make_test_player(2)];
    let formation = PBCFormation::with_players("Shotgun", players);

    assert_eq!(formation.player_count(), 2);
    assert_eq!(formation.players[0].nr, 1);
    assert_eq!(formation.players[1].nr, 2);
}

#[test]
fn test_add_player() {
    let mut formation = PBCFormation::new("Pro Set");
    formation.add_player(make_test_player(1));
    formation.add_player(make_test_player(2));

    assert_eq!(formation.player_count(), 2);
}

#[test]
fn test_copy_without_routes() {
    let mut formation = PBCFormation::new("Test Formation");

    let mut player = make_test_player(1);
    player.set_route(PBCRoute::with_name("Post", "P"));
    player.set_motion(PBCMotion::new());
    formation.add_player(player);

    let copy = formation.copy_without_routes();

    assert_eq!(copy.name, formation.name);
    assert_eq!(copy.player_count(), 1);

    assert!(formation.players[0].route.is_some());
    assert!(copy.players[0].route.is_none());

    assert!(formation.players[0].motion.is_some());
    assert!(copy.players[0].motion.is_none());

    assert_eq!(copy.players[0].pos, formation.players[0].pos);
    assert_eq!(copy.players[0].nr, formation.players[0].nr);
    assert_eq!(copy.players[0].name, formation.players[0].name);
}
