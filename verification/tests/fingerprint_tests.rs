//! Content fingerprints: hex rendering, determinism, and invalidation.

use noctua::fingerprint::{cache_key, fingerprint_message, thumbnail_path, to_hex};
use sha2::Digest;

#[test]
fn hex_renders_two_digits_per_byte() {
    assert_eq!(to_hex(&vec![]), "");
    assert_eq!(to_hex(&vec![0x00, 0x01, 0xff, 0xa5]), "0001ffa5");
}

#[test]
fn message_serialises_path_mtime_page() {
    let m = fingerprint_message("ab", 0x0102, 3);
    let mut expected = b"ab".to_vec();
    expected.extend_from_slice(&[0x02, 0x01, 0, 0, 0, 0, 0, 0]);
    expected.extend_from_slice(&[3, 0, 0, 0, 0, 0, 0, 0]);
    assert_eq!(m, expected);
}

#[test]
fn fingerprint_is_deterministic() {
    let a = cache_key("/photos/cat.png", 1700000000, 0);
    let b = cache_key("/photos/cat.png", 1700000000, 0);
    assert_eq!(a, b);
    assert_eq!(a.len(), 64);
    assert!(a.chars().all(|c| c.is_ascii_hexdigit()));
}

#[test]
fn changing_mtime_changes_fingerprint() {
    let a = cache_key("/photos/cat.png", 1700000000, 0);
    let b = cache_key("/photos/cat.png", 1700000001, 0);
    assert_ne!(a, b);
}

#[test]
fn changing_page_changes_fingerprint() {
    let a = cache_key("/doc.pdf", 1700000000, 0);
    let b = cache_key("/doc.pdf", 1700000000, 1);
    assert_ne!(a, b);
}

#[test]
fn thumbnail_path_appends_extension() {
    let key = cache_key("/doc.pdf", 42, 7);
    let path = thumbnail_path("/doc.pdf", 42, 7);
    assert_eq!(path, format!("{}.png", key));
}

#[test]
fn fingerprint_matches_reference_digest() {
    // SHA-256 of the serialised ("", 0, 0) message, which is sixteen zero
    // bytes, cross-checked with the sha2 crate.
    let digest = sha2::Sha256::digest([0u8; 16]);
    let expected: String = digest.iter().map(|b| format!("{:02x}", b)).collect();
    assert_eq!(cache_key("", 0, 0), expected);
}
