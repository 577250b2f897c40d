//! Version resolution against a manifest.

use minecraft_launcher_lib::error::LauncherError;
use minecraft_launcher_lib::version::{LatestVersions, VersionEntry, VersionManifest};

fn entry(id: &str, url: &str) -> VersionEntry {
    VersionEntry {
        id: id.to_string(),
        version_type: "release".to_string(),
        url: url.to_string(),
        time: "2025-01-01T00:00:00+00:00".to_string(),
        release_time: "2025-01-01T00:00:00+00:00".to_string(),
        sha1: "0123456789abcdef0123456789abcdef01234567".to_string(),
        compliance_level: Some(1),
    }
}

fn manifest() -> VersionManifest {
    VersionManifest {
        latest: LatestVersions {
            release: "1.21.4".to_string(),
            snapshot: "25w01a".to_string(),
        },
        versions: vec![
            entry("1.21.4", "https://example.invalid/1.21.4.json"),
            entry("1.20.1", "https://example.invalid/1.20.1.json"),
            entry("25w01a", "https://example.invalid/25w01a.json"),
        ],
    }
}

#[test]
fn resolve_returns_entry_with_matching_id() {
    let m = manifest();
    for id in ["1.21.4", "1.20.1", "25w01a"] {
        let e = m.find_version(id).expect("id is present");
        assert_eq!(e.id, id);
    }
}

#[test]
fn resolve_returns_first_match() {
    let mut m = manifest();
    m.versions.push(entry("1.20.1", "https://example.invalid/duplicate.json"));
    let e = m.find_version("1.20.1").expect("id is present");
    assert_eq!(e.url, "https://example.invalid/1.20.1.json");
}

#[test]
fn resolve_unknown_id_fails_with_version_not_found() {
    let m = manifest();
    match m.find_version("9.9.9") {
        Err(LauncherError::VersionNotFound(v)) => assert_eq!(v, "9.9.9"),
        other => panic!("expected VersionNotFound, got {:?}", other),
    }
}

#[test]
fn resolve_on_empty_manifest_fails() {
    let m = VersionManifest {
        latest: LatestVersions {
            release: String::new(),
            snapshot: String::new(),
        },
        versions: Vec::new(),
    };
    assert!(m.find_version("1.21.4").is_err());
}
