use pbc2::bridge::{
    pbc_create_new_play, pbc_get_category_info, pbc_get_category_names, pbc_get_formation_info,
    pbc_get_formation_names, pbc_get_play_info, pbc_get_play_names, pbc_get_playbook_name,
    pbc_get_route_info, pbc_get_route_names, pbc_has_category, pbc_has_formation, pbc_has_play,
    pbc_has_route, pbc_reset_playbook, pbc_set_playbook_name,
};
use pbc2::PBCController;

#[test]
fn test_playbook_name_roundtrip() {
    let mut ctrl = PBCController::new();
    assert_eq!(pbc_get_playbook_name(&ctrl), "New Playbook");

    pbc_set_playbook_name(&mut ctrl, "Season 1".to_string());
    assert_eq!(pbc_get_playbook_name(&ctrl), "Season 1");
}

#[test]
fn test_reset_playbook_bridge() {
    let mut ctrl = PBCController::new();
    pbc_create_new_play(&mut ctrl, "P".to_string(), "P1".to_string(), "Spread Right".to_string())
        .unwrap();
    pbc_reset_playbook(&mut ctrl, "Fresh".to_string(), 9);

    assert_eq!(pbc_get_playbook_name(&ctrl), "Fresh");
    assert_eq!(pbc_get_play_names(&ctrl).len(), 0);
    assert_eq!(pbc_get_route_names(&ctrl).len(), 14);
}

#[test]
fn test_formation_queries() {
    let ctrl = PBCController::new();

    assert!(pbc_has_formation(&ctrl, "Spread Right"));
    assert!(!pbc_has_formation(&ctrl, "Empty Set"));

    let names = pbc_get_formation_names(&ctrl);
    assert_eq!(names, vec!["Spread Right".to_string()]);

    let info = pbc_get_formation_info(&ctrl, "Spread Right").unwrap();
    assert_eq!(info.name, "Spread Right");
    assert!(pbc_get_formation_info(&ctrl, "Empty Set").is_err());
}

#[test]
fn test_route_queries() {
    let ctrl = PBCController::new();

    assert!(pbc_has_route(&ctrl, "Post"));
    assert!(!pbc_has_route(&ctrl, "Quadruple Reverse"));

    let names = pbc_get_route_names(&ctrl);
    assert_eq!(names.len(), 14);
    assert!(names.contains(&"Fade".to_string()));

    let info = pbc_get_route_info(&ctrl, "Post").unwrap();
    assert_eq!(info.name, "Post");
    assert_eq!(info.code_name, "");
    assert!(pbc_get_route_info(&ctrl, "Quadruple Reverse").is_err());
}

#[test]
fn test_category_queries() {
    let ctrl = PBCController::new();

    assert!(!pbc_has_category(&ctrl, "Offense"));
    assert_eq!(pbc_get_category_names(&ctrl).len(), 0);
    assert!(pbc_get_category_info(&ctrl, "Offense").is_err());
}

#[test]
fn test_play_creation_and_queries() {
    let mut ctrl = PBCController::new();

    assert!(!pbc_has_play(&ctrl, "Quick Slant"));
    let r = pbc_create_new_play(
        &mut ctrl,
        "Quick Slant".to_string(),
        "QS".to_string(),
        "Spread Right".to_string(),
    );
    assert!(r.is_ok());

    // Creating installs a draft; the play is persisted only on save.
    assert!(!pbc_has_play(&ctrl, "Quick Slant"));
    ctrl.save_current_play(false).unwrap();
    assert!(pbc_has_play(&ctrl, "Quick Slant"));

    let names = pbc_get_play_names(&ctrl);
    assert_eq!(names, vec!["Quick Slant".to_string()]);

    let info = pbc_get_play_info(&ctrl, "Quick Slant").unwrap();
    assert_eq!(info.name, "Quick Slant");
    assert_eq!(info.code_name, "QS");
    assert_eq!(info.comment, "");
    assert_eq!(info.formation_name, "Spread Right");

    assert!(pbc_get_play_info(&ctrl, "Nobody").is_err());
}

#[test]
fn test_create_play_unknown_formation() {
    let mut ctrl = PBCController::new();
    let r = pbc_create_new_play(
        &mut ctrl,
        "P".to_string(),
        "P1".to_string(),
        "No Such Formation".to_string(),
    );
    assert!(r.is_err());
    assert!(r.unwrap_err().is_not_found());
}
