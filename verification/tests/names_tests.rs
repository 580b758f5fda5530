use pbc2::names::{CategoryName, FormationName, PlayName, RouteName};
use std::collections::HashSet;

#[test]
fn test_play_name() {
    let name = PlayName::new("PA Post");
    assert_eq!(name.as_str(), "PA Post");
    assert_eq!(name.as_string().as_str(), "PA Post");
}

#[test]
fn test_name_from_str() {
    let name: PlayName = "Test Play".into();
    assert_eq!(name.as_str(), "Test Play");
}

#[test]
fn test_name_from_string() {
    let name: FormationName = String::from("I Formation").into();
    assert_eq!(name.as_str(), "I Formation");
}

#[test]
fn test_name_equality() {
    let name1 = RouteName::new("Post");
    let name2 = RouteName::new("Post");
    let name3 = RouteName::new("Slant");

    assert_eq!(name1, name2);
    assert_ne!(name1, name3);
}

#[test]
fn test_name_hash() {
    let mut set = HashSet::new();
    set.insert(CategoryName::new("Pass"));
    set.insert(CategoryName::new("Pass"));
    set.insert(CategoryName::new("Run"));

    assert_eq!(set.len(), 2);
}

#[test]
fn test_into_string() {
    let name = PlayName::new("Test");
    let string = name.into_string();
    assert_eq!(string, "Test");
}
