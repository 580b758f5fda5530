use pbc2::PBCRole;

#[test]
fn test_role_creation() {
    let role = PBCRole::new("Quarterback".to_string(), ['Q', 'B', ' ', ' ']);

    assert_eq!(role.full_name, "Quarterback");
    assert_eq!(role.short_name, ['Q', 'B', ' ', ' ']);
    assert_eq!(role.short_name_string(), "QB  ");
}

#[test]
fn test_role_from_strings() {
    let role = PBCRole::from_strings("Wide Receiver", "WR  ").unwrap();

    assert_eq!(role.full_name, "Wide Receiver");
    assert_eq!(role.short_name_string(), "WR  ");
}

#[test]
fn test_role_from_strings_invalid_length() {
    let result = PBCRole::from_strings("Quarterback", "QB");
    assert!(result.is_err());

    let result = PBCRole::from_strings("Quarterback", "QBACK");
    assert!(result.is_err());
}

#[test]
fn test_display() {
    let role = PBCRole::from_strings("Quarterback", "QB  ").unwrap();
    assert_eq!(role.display_string(), "Quarterback (QB  )");
}
