// Coordinates are in tenths of a yard throughout.
use pbc2::{PBCColor, PBCFormation, PBCPlay, PBCPlayer, PBCRole, Point2D};

fn make_test_formation() -> PBCFormation {
    let player = PBCPlayer::with_details(
        PBCRole::from_strings("QB", "QB  ").unwrap(),
        PBCColor::new(255, 0, 0),
        Point2D::zero(),
        "Test QB",
        1,
    );
    PBCFormation::with_players("I Formation", vec![player])
}

#[test]
fn test_play_creation() {
    let formation = make_test_formation();
    let play = PBCPlay::new("PA Post", "PAP", formation);

    assert_eq!(play.name.as_str(), "PA Post");
    assert_eq!(play.code_name, "PAP");
    assert_eq!(play.comment, "");
    assert_eq!(play.player_count(), 1);
}

#[test]
fn test_play_with_comment() {
    let formation = make_test_formation();
    let play = PBCPlay::with_comment("Deep Crossing", "DC", formation, "Good against Cover 2");

    assert_eq!(play.name.as_str(), "Deep Crossing");
    assert_eq!(play.code_name, "DC");
    assert_eq!(play.comment, "Good against Cover 2");
}

#[test]
fn test_play_owns_formation() {
    let formation = make_test_formation();
    let formation_name = formation.name.clone();

    let play = PBCPlay::new("Test Play", "TP", formation);

    assert_eq!(play.formation.name, formation_name);
}

#[test]
fn test_player_count() {
    let mut formation = PBCFormation::new("Test");
    formation.add_player(PBCPlayer::with_details(
        PBCRole::from_strings("WR", "WR  ").unwrap(),
        PBCColor::new(0, 255, 0),
        Point2D::new(50, 0),
        "WR1",
        11,
    ));
    formation.add_player(PBCPlayer::with_details(
        PBCRole::from_strings("WR", "WR  ").unwrap(),
        PBCColor::new(0, 255, 0),
        Point2D::new(-50, 0),
        "WR2",
        12,
    ));

    let play = PBCPlay::new("Test", "T", formation);
    assert_eq!(play.player_count(), 2);
}
