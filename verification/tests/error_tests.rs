use pbc2::{PBCPlaybook, PBCRole, PbcError};

#[test]
fn test_not_found_carries_name() {
    let pb = PBCPlaybook::new("Test", 5);
    match pb.get_formation(&"Wishbone".into()) {
        Err(PbcError::NotFound(name)) => assert_eq!(name, "Wishbone"),
        _ => panic!("expected NotFound"),
    }
}

#[test]
fn test_invalid_short_name() {
    match PBCRole::from_strings("Kicker", "K") {
        Err(PbcError::InvalidShortName) => {}
        _ => panic!("expected InvalidShortName"),
    }
}

#[test]
fn test_is_not_found() {
    assert!(PbcError::NotFound("x".to_string()).is_not_found());
    assert!(!PbcError::InvalidShortName.is_not_found());
    assert!(!PbcError::NoCurrentPlay.is_not_found());
}

#[test]
fn it_works() {
    let result = 2 + 2;
    assert_eq!(result, 4);
}
