// Coordinates are in tenths of a yard throughout.
use pbc2::names::{CategoryName, PlayName};
use pbc2::{PBCCategory, PBCColor, PBCFormation, PBCPlay, PBCPlaybook, PBCPlayer, PBCRole, Point2D};

fn make_test_player() -> PBCPlayer {
    PBCPlayer::with_details(
        PBCRole::from_strings("QB", "QB  ").unwrap(),
        PBCColor::new(255, 0, 0),
        Point2D::zero(),
        "Test QB",
        1,
    )
}

#[test]
fn test_playbook_creation() {
    let pb = PBCPlaybook::new("My Playbook", 11);
    assert_eq!(pb.name, "My Playbook");
    assert_eq!(pb.player_number, 11);

    assert_eq!(pb.routes().len(), 14);
    assert_eq!(pb.formations().len(), 1);
    assert!(pb.categories().is_empty());
    assert!(pb.plays().is_empty());

    assert!(pb.has_formation(&"Spread Right".into()));
}

#[test]
fn test_add_formation() {
    let mut pb = PBCPlaybook::new("Test", 5);
    let formation = PBCFormation::with_players("I Formation", vec![make_test_player()]);

    let result = pb.add_formation(formation.clone(), false);
    assert!(result.unwrap());

    let result = pb.add_formation(formation.clone(), false);
    assert!(!result.unwrap());

    let result = pb.add_formation(formation, true);
    assert!(result.unwrap());
}

#[test]
fn test_get_formation_returns_clone() {
    let mut pb = PBCPlaybook::new("Test", 5);
    let formation = PBCFormation::with_players("Test", vec![make_test_player()]);
    pb.add_formation(formation, false).unwrap();

    let retrieved1 = pb.get_formation(&"Test".into()).unwrap();
    let retrieved2 = pb.get_formation(&"Test".into()).unwrap();

    assert_eq!(retrieved1, retrieved2);
}

#[test]
fn test_has_formation() {
    let mut pb = PBCPlaybook::new("Test", 5);
    let formation = PBCFormation::new("Test");
    pb.add_formation(formation, false).unwrap();

    assert!(pb.has_formation(&"Test".into()));
    assert!(!pb.has_formation(&"NonExistent".into()));
}

#[test]
fn test_delete_formation() {
    let mut pb = PBCPlaybook::new("Test", 5);
    let formation = PBCFormation::new("Test");
    pb.add_formation(formation, false).unwrap();

    assert!(pb.has_formation(&"Test".into()));
    pb.delete_formation(&"Test".into()).unwrap();
    assert!(!pb.has_formation(&"Test".into()));
}

#[test]
fn test_category_play_relationship() {
    let mut pb = PBCPlaybook::new("Test", 5);

    let category = PBCCategory::new("Offense");
    let formation = PBCFormation::new("Test");
    let play = PBCPlay::new("PA Post", "PAP", formation);

    pb.add_category(category, false).unwrap();
    pb.add_play(play, false).unwrap();

    let play_name: PlayName = "PA Post".into();
    let cat_name: CategoryName = "Offense".into();

    pb.add_play_to_category(&play_name, &cat_name).unwrap();

    let play_cats = pb.get_play_categories(&play_name);
    assert_eq!(play_cats.len(), 1);
    assert_eq!(play_cats[0], cat_name);

    let cat_plays = pb.get_category_plays(&cat_name);
    assert_eq!(cat_plays.len(), 1);
    assert_eq!(cat_plays[0], play_name);
}

#[test]
fn test_delete_category_removes_associations() {
    let mut pb = PBCPlaybook::new("Test", 5);

    let category = PBCCategory::new("Offense");
    let formation = PBCFormation::new("Test");
    let play = PBCPlay::new("PA Post", "PAP", formation);

    pb.add_category(category, false).unwrap();
    pb.add_play(play, false).unwrap();

    let play_name: PlayName = "PA Post".into();
    let cat_name: CategoryName = "Offense".into();

    pb.add_play_to_category(&play_name, &cat_name).unwrap();

    pb.delete_category(&cat_name).unwrap();

    let play_cats = pb.get_play_categories(&play_name);
    assert_eq!(play_cats.len(), 0);
}

#[test]
fn test_delete_play_removes_associations() {
    let mut pb = PBCPlaybook::new("Test", 5);

    let category = PBCCategory::new("Offense");
    let formation = PBCFormation::new("Test");
    let play = PBCPlay::new("PA Post", "PAP", formation);

    pb.add_category(category, false).unwrap();
    pb.add_play(play, false).unwrap();

    let play_name: PlayName = "PA Post".into();
    let cat_name: CategoryName = "Offense".into();

    pb.add_play_to_category(&play_name, &cat_name).unwrap();

    pb.delete_play(&play_name).unwrap();

    let cat_plays = pb.get_category_plays(&cat_name);
    assert_eq!(cat_plays.len(), 0);
}

#[test]
fn test_multiple_categories_per_play() {
    let mut pb = PBCPlaybook::new("Test", 5);

    pb.add_category(PBCCategory::new("Offense"), false).unwrap();
    pb.add_category(PBCCategory::new("RedZone"), false).unwrap();

    let formation = PBCFormation::new("Test");
    let play = PBCPlay::new("PA Post", "PAP", formation);
    pb.add_play(play, false).unwrap();

    let play_name: PlayName = "PA Post".into();

    pb.add_play_to_category(&play_name, &"Offense".into()).unwrap();
    pb.add_play_to_category(&play_name, &"RedZone".into()).unwrap();

    let cats = pb.get_play_categories(&play_name);
    assert_eq!(cats.len(), 2);
    assert!(cats.contains(&"Offense".into()));
    assert!(cats.contains(&"RedZone".into()));
}

#[test]
fn test_formation_names() {
    let mut pb = PBCPlaybook::new("Test", 5);
    pb.add_formation(PBCFormation::new("I Formation"), false).unwrap();
    pb.add_formation(PBCFormation::new("Spread"), false).unwrap();

    let names = pb.formation_names();
    assert_eq!(names.len(), 3);
    assert!(names.contains(&"I Formation".into()));
    assert!(names.contains(&"Spread".into()));
    assert!(names.contains(&"Spread Right".into()));
}

#[test]
fn test_associate_twice_idempotent() {
    let mut pb = PBCPlaybook::new("Test", 5);
    pb.add_category(PBCCategory::new("Offense"), false).unwrap();
    pb.add_play(PBCPlay::new("P", "P1", PBCFormation::new("F")), false).unwrap();

    let play_name: PlayName = "P".into();
    let cat_name: CategoryName = "Offense".into();

    pb.add_play_to_category(&play_name, &cat_name).unwrap();
    let once = pb.get_play_categories(&play_name);
    pb.add_play_to_category(&play_name, &cat_name).unwrap();
    let twice = pb.get_play_categories(&play_name);

    assert_eq!(once.len(), 1);
    assert_eq!(twice.len(), 1);
    assert_eq!(once[0], twice[0]);
}

#[test]
fn test_associate_unknown_play_fails() {
    let mut pb = PBCPlaybook::new("Test", 5);
    pb.add_category(PBCCategory::new("Offense"), false).unwrap();

    let r = pb.add_play_to_category(&"Ghost".into(), &"Offense".into());
    assert!(r.is_err());
    assert!(r.unwrap_err().is_not_found());
}

#[test]
fn test_associate_unknown_category_fails() {
    let mut pb = PBCPlaybook::new("Test", 5);
    pb.add_play(PBCPlay::new("P", "P1", PBCFormation::new("F")), false).unwrap();

    let r = pb.add_play_to_category(&"P".into(), &"Ghost".into());
    assert!(r.is_err());
    assert!(r.unwrap_err().is_not_found());
}

#[test]
fn test_overwrite_add_keeps_associations() {
    let mut pb = PBCPlaybook::new("Test", 5);
    pb.add_category(PBCCategory::new("Offense"), false).unwrap();
    pb.add_play(PBCPlay::new("P", "P1", PBCFormation::new("F")), false).unwrap();

    let play_name: PlayName = "P".into();
    pb.add_play_to_category(&play_name, &"Offense".into()).unwrap();

    // Overwriting the play is "update in place": the association survives.
    let updated = PBCPlay::new("P", "P2", PBCFormation::new("G"));
    assert!(pb.add_play(updated, true).unwrap());

    let cats = pb.get_play_categories(&play_name);
    assert_eq!(cats.len(), 1);
    assert_eq!(pb.get_play(&play_name).unwrap().code_name, "P2");
}

#[test]
fn test_enumeration_total_for_unknown_names() {
    let pb = PBCPlaybook::new("Test", 5);
    assert_eq!(pb.get_play_categories(&"Nobody".into()).len(), 0);
    assert_eq!(pb.get_category_plays(&"Nothing".into()).len(), 0);
}

#[test]
fn test_reset_reseeds() {
    let mut pb = PBCPlaybook::new("Test", 5);
    pb.add_category(PBCCategory::new("Offense"), false).unwrap();
    pb.reset("Fresh", 7);

    assert_eq!(pb.name, "Fresh");
    assert_eq!(pb.player_number, 7);
    assert!(pb.categories().is_empty());
    assert_eq!(pb.routes().len(), 14);
    let formations = pb.formations();
    assert_eq!(formations.len(), 1);
    assert_eq!(formations[0].player_count(), 7);
}

#[test]
fn test_add_then_get_returns_equal_data() {
    let mut pb = PBCPlaybook::new("Test", 5);
    let formation = PBCFormation::with_players("Empty Backfield", vec![make_test_player()]);

    assert!(pb.add_formation(formation.clone(), false).unwrap());
    assert!(pb.has_formation(&"Empty Backfield".into()));
    assert_eq!(pb.get_formation(&"Empty Backfield".into()).unwrap(), formation);

    // A second non-overwriting add is "not performed" and leaves the
    // stored formation unchanged.
    let other = PBCFormation::new("Empty Backfield");
    assert!(!pb.add_formation(other, false).unwrap());
    assert_eq!(pb.get_formation(&"Empty Backfield".into()).unwrap(), formation);
}

#[test]
fn test_new_playbook_seeded_scenario() {
    let pb = PBCPlaybook::new("Test", 5);
    assert_eq!(pb.routes().len(), 14);

    let formations = pb.formations();
    assert_eq!(formations.len(), 1);
    assert_eq!(formations[0].name.as_str(), "Spread Right");
    assert_eq!(formations[0].player_count(), 5);
}

#[test]
fn test_delete_category_scenario() {
    let mut pb = PBCPlaybook::new("Test", 5);
    pb.add_play(PBCPlay::new("P", "P1", PBCFormation::new("F")), false).unwrap();
    pb.add_category(PBCCategory::new("Offense"), false).unwrap();
    pb.add_play_to_category(&"P".into(), &"Offense".into()).unwrap();

    pb.delete_category(&"Offense".into()).unwrap();
    assert!(pb.get_play_categories(&"P".into()).is_empty());
}

#[test]
fn test_reload_default_formations() {
    let mut pb = PBCPlaybook::new("Test", 5);
    pb.delete_formation(&"Spread Right".into()).unwrap();
    assert!(!pb.has_formation(&"Spread Right".into()));

    pb.reload_default_formations();
    assert!(pb.has_formation(&"Spread Right".into()));
}
