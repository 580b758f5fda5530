use pbc2::default_playbook::{create_default_formation, create_default_routes};

#[test]
fn test_default_routes_count() {
    let routes = create_default_routes();
    assert_eq!(routes.len(), 14);
}

#[test]
fn test_default_routes_have_names() {
    let routes = create_default_routes();
    let names: Vec<&str> = routes.iter().map(|r| r.name.as_str()).collect();

    assert!(names.contains(&"Hook"));
    assert!(names.contains(&"Comeback"));
    assert!(names.contains(&"5 In"));
    assert!(names.contains(&"10 In"));
    assert!(names.contains(&"5 Out"));
    assert!(names.contains(&"10 Out"));
    assert!(names.contains(&"Slant"));
    assert!(names.contains(&"Shallow"));
    assert!(names.contains(&"Curl"));
    assert!(names.contains(&"Post"));
    assert!(names.contains(&"Corner"));
    assert!(names.contains(&"Fly"));
    assert!(names.contains(&"Seam"));
    assert!(names.contains(&"Fade"));
}

#[test]
fn test_default_routes_have_paths() {
    let routes = create_default_routes();
    for route in &routes {
        assert!(!route.movement.is_empty(), "Route '{}' has no paths", route.name);
    }
}

#[test]
fn test_default_formation_5_players() {
    let formation = create_default_formation(5);
    assert_eq!(formation.name.as_str(), "Spread Right");
    assert_eq!(formation.player_count(), 5);
}

#[test]
fn test_default_formation_7_players() {
    let formation = create_default_formation(7);
    assert_eq!(formation.player_count(), 7);
}

#[test]
fn test_default_formation_9_players() {
    let formation = create_default_formation(9);
    assert_eq!(formation.player_count(), 9);
}

#[test]
fn test_default_formation_11_players() {
    let formation = create_default_formation(11);
    assert_eq!(formation.player_count(), 11);
}

#[test]
fn test_default_formation_invalid_player_count() {
    let formation = create_default_formation(3);
    assert_eq!(formation.player_count(), 5);

    let formation = create_default_formation(8);
    assert_eq!(formation.player_count(), 7);
}

#[test]
fn test_post_route() {
    let routes = create_default_routes();
    let post = routes.iter().find(|r| r.name == "Post").unwrap();

    assert_eq!(post.movement.len(), 2);
}

#[test]
fn test_shallow_route_has_curve() {
    let routes = create_default_routes();
    let shallow = routes.iter().find(|r| r.name == "Shallow").unwrap();

    assert!(shallow.movement.paths[0].is_curved());
}
