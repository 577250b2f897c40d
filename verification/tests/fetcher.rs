//! Content hashing, the idempotence check, validation, and failure
//! aggregation.

use minecraft_launcher_lib::error::LauncherError;
use minecraft_launcher_lib::fetcher::{
    aggregate_outcomes, calculate_sha1, hash_matches, needs_fetch, to_hex_lower,
    validate_download,
};

const ABC_SHA1: &str = "a9993e364706816aba3e25717850c26c9cd0d89d";
const EMPTY_SHA1: &str = "da39a3ee5e6b4b0d3255bfef95601890afd80709";

#[test]
fn sha1_of_known_input() {
    assert_eq!(calculate_sha1(b"abc"), ABC_SHA1);
}

#[test]
fn sha1_of_empty_input() {
    assert_eq!(calculate_sha1(b""), EMPTY_SHA1);
}

#[test]
fn hex_rendering_is_two_lowercase_digits_per_byte() {
    assert_eq!(to_hex_lower(&vec![0x00, 0xbe, 0xef, 0x0a]), "00beef0a");
    assert_eq!(to_hex_lower(&Vec::new()), "");
}

#[test]
fn matching_destination_needs_no_fetch() {
    let existing = Some(b"abc".to_vec());
    assert!(!needs_fetch(&existing, ABC_SHA1));
}

#[test]
fn corrupt_destination_needs_fetch() {
    let existing = Some(b"abx".to_vec());
    assert!(needs_fetch(&existing, ABC_SHA1));
}

#[test]
fn missing_destination_needs_fetch() {
    assert!(needs_fetch(&None, ABC_SHA1));
}

#[test]
fn validation_accepts_matching_bytes() {
    assert!(validate_download(b"abc", ABC_SHA1, "libs/a.jar").is_ok());
    assert!(hash_matches(b"abc", ABC_SHA1));
}

#[test]
fn validation_rejects_mismatching_bytes() {
    match validate_download(b"abcd", ABC_SHA1, "libs/a.jar") {
        Err(LauncherError::Config(msg)) => {
            assert!(msg.contains("Hash mismatch"));
            assert!(msg.contains("libs/a.jar"));
            assert!(msg.contains(ABC_SHA1));
        }
        other => panic!("expected a validation error, got {:?}", other),
    }
}

#[test]
fn aggregation_succeeds_when_every_task_did() {
    assert!(aggregate_outcomes(vec![None, None, None]).is_ok());
    assert!(aggregate_outcomes(Vec::new()).is_ok());
}

#[test]
fn aggregation_reports_count_and_first_error() {
    let outcomes = vec![
        None,
        Some(LauncherError::Download("first failure".to_string())),
        None,
        Some(LauncherError::File("second failure".to_string())),
    ];
    match aggregate_outcomes(outcomes) {
        Err(f) => {
            assert_eq!(f.count, 2);
            assert_eq!(
                f.first,
                LauncherError::Download("first failure".to_string())
            );
        }
        Ok(()) => panic!("expected an aggregated failure"),
    }
}

#[test]
fn aggregation_counts_every_failure() {
    let outcomes = vec![
        Some(LauncherError::Download("a".to_string())),
        Some(LauncherError::Download("b".to_string())),
        Some(LauncherError::Download("c".to_string())),
    ];
    let f = aggregate_outcomes(outcomes).unwrap_err();
    assert_eq!(f.count, 3);
    assert_eq!(f.first, LauncherError::Download("a".to_string()));
}
