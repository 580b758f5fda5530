use pbc2::PBCCategory;
use std::collections::HashSet;

#[test]
fn test_category_creation() {
    let category = PBCCategory::new("Pass");
    assert_eq!(category.name.as_str(), "Pass");
}

#[test]
fn test_category_from_string() {
    let category = PBCCategory::new(String::from("Run").as_str());
    assert_eq!(category.name.as_str(), "Run");
}

#[test]
fn test_category_equality() {
    let cat1 = PBCCategory::new("Play Action");
    let cat2 = PBCCategory::new("Play Action");
    let cat3 = PBCCategory::new("Pass");

    assert_eq!(cat1, cat2);
    assert_ne!(cat1, cat3);
}

#[test]
fn test_category_hash() {
    let mut set = HashSet::new();
    set.insert(PBCCategory::new("Pass"));
    set.insert(PBCCategory::new("Pass"));
    set.insert(PBCCategory::new("Run"));

    assert_eq!(set.len(), 2);
}
