use pbc2::bridge::pbc_has_play;
use pbc2::{PBCController, PbcError};

#[test]
fn test_current_play_workflow() {
    let mut controller = PBCController::new();

    assert!(!controller.has_current_play());

    controller
        .create_and_load_new_play("Test Play".to_string(), "TP".to_string(), "Spread Right")
        .unwrap();

    assert!(controller.has_current_play());
    assert_eq!(controller.current_play().unwrap().name.as_str(), "Test Play");

    controller.save_current_play(false).unwrap();

    assert!(pbc_has_play(&controller, "Test Play"));

    controller.clear_current_play();
    assert!(!controller.has_current_play());

    controller.load_play(&"Test Play".into()).unwrap();
    assert!(controller.has_current_play());
}

#[test]
fn test_save_play_as() {
    let mut controller = PBCController::new();

    controller
        .create_and_load_new_play("Original".to_string(), "ORG".to_string(), "Spread Right")
        .unwrap();

    controller
        .save_current_play_as("Modified".to_string(), "MOD".to_string())
        .unwrap();

    assert_eq!(controller.current_play().unwrap().name.as_str(), "Modified");

    assert!(pbc_has_play(&controller, "Modified"));
}

#[test]
fn test_save_without_draft_fails() {
    let mut controller = PBCController::new();
    let r = controller.save_current_play(false);
    assert!(matches!(r, Err(PbcError::NoCurrentPlay)));

    let r = controller.save_current_play_as("X".to_string(), "X1".to_string());
    assert!(matches!(r, Err(PbcError::NoCurrentPlay)));
}

#[test]
fn test_load_unknown_play_keeps_draft() {
    let mut controller = PBCController::new();
    controller
        .create_and_load_new_play("Draft".to_string(), "D".to_string(), "Spread Right")
        .unwrap();

    let r = controller.load_play(&"Nobody".into());
    assert!(matches!(r, Err(PbcError::NotFound(_))));
    assert_eq!(controller.current_play().unwrap().name.as_str(), "Draft");
}

#[test]
fn test_create_strips_routes() {
    let mut controller = PBCController::new();
    controller
        .create_and_load_new_play("Fresh".to_string(), "F".to_string(), "Spread Right")
        .unwrap();

    let draft = controller.current_play().unwrap();
    assert!(draft.formation.players.len() > 0);
    for p in draft.formation.players.iter() {
        assert!(p.route.is_none());
        assert!(p.motion.is_none());
        assert!(p.option_routes.is_empty());
    }
}

#[test]
fn test_delete_play_clears_matching_draft() {
    let mut controller = PBCController::new();
    controller
        .create_and_load_new_play("Doomed".to_string(), "D".to_string(), "Spread Right")
        .unwrap();
    controller.save_current_play(false).unwrap();
    assert!(controller.has_current_play());

    controller.delete_play(&"Doomed".into()).unwrap();
    assert!(!controller.has_current_play());
    assert!(!pbc_has_play(&controller, "Doomed"));
}

#[test]
fn test_scenario_create_save_save_as() {
    let mut controller = PBCController::new();

    controller
        .create_and_load_new_play("Red Zone Fade".to_string(), "RZF".to_string(), "Spread Right")
        .unwrap();
    controller.save_current_play(false).unwrap();
    assert!(pbc_has_play(&controller, "Red Zone Fade"));

    controller
        .save_current_play_as("RZF v2".to_string(), "RZF2".to_string())
        .unwrap();
    assert_eq!(controller.current_play().unwrap().name.as_str(), "RZF v2");
    assert!(pbc_has_play(&controller, "Red Zone Fade"));
    assert!(pbc_has_play(&controller, "RZF v2"));
}
