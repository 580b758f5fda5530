use pbc2::updater::{filter_newer_releases, parse_release, update_status, ReleaseInfo};
use pbc2::UpdateCheckingStatus;

fn release(major: u64, minor: u64, patch: u64, description: &str) -> ReleaseInfo {
    ReleaseInfo { major, minor, patch, description: description.to_string() }
}

#[test]
fn test_parse_release_valid() {
    let rel = parse_release("0.14.0", "bug fixes".to_string()).unwrap();
    assert_eq!(rel.major, 0);
    assert_eq!(rel.minor, 14);
    assert_eq!(rel.patch, 0);
    assert_eq!(rel.description, "bug fixes");
}

#[test]
fn test_parse_release_invalid() {
    assert!(parse_release("not a version", "x".to_string()).is_none());
    assert!(parse_release("1.0", "too short".to_string()).is_none());
}

#[test]
fn test_filter_newer_releases_keeps_only_newer() {
    let releases = vec![
        release(1, 2, 0, "newest"),
        release(1, 1, 3, "current patch line"),
        release(1, 1, 2, "old"),
        release(0, 9, 9, "ancient"),
    ];
    let newer = filter_newer_releases(1, 1, 2, releases);
    assert_eq!(newer.len(), 2);
    assert_eq!(newer[0].description, "newest");
    assert_eq!(newer[1].description, "current patch line");
}

#[test]
fn test_update_status_updates_available() {
    let releases = vec![release(0, 14, 0, "new"), release(0, 13, 0, "current")];
    match update_status(0, 13, 0, &releases) {
        UpdateCheckingStatus::UpdatesAvailable(major, minor, patch) => {
            assert_eq!((major, minor, patch), (0, 14, 0));
        }
        _ => panic!("expected an available update"),
    }
}

#[test]
fn test_update_status_up_to_date() {
    let releases = vec![release(0, 14, 0, "latest"), release(0, 13, 0, "older")];
    assert_eq!(update_status(0, 14, 0, &releases), UpdateCheckingStatus::UpToDate);
    assert_eq!(update_status(1, 0, 0, &releases), UpdateCheckingStatus::UpToDate);
}

#[test]
fn test_update_status_empty_list() {
    let releases: Vec<ReleaseInfo> = Vec::new();
    assert_eq!(update_status(0, 1, 0, &releases), UpdateCheckingStatus::UpToDate);
}
