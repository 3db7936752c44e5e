use wash::digest::{normalize, verify};
use wash::error::RegError;

const HEX: &str = "ab12cd34ab12cd34ab12cd34ab12cd34ab12cd34ab12cd34ab12cd34ab12cd34";

fn prefixed() -> String {
    format!("sha256:{}", HEX)
}

#[test]
fn normalize_adds_a_missing_prefix() {
    assert_eq!(normalize(HEX.to_string()), prefixed());
    assert_eq!(normalize("ab12".to_string()), "sha256:ab12");
}

#[test]
fn normalize_keeps_a_prefixed_digest() {
    assert_eq!(normalize(prefixed()), prefixed());
}

#[test]
fn normalize_twice_is_normalize_once() {
    let once = normalize(HEX.to_string());
    assert_eq!(normalize(once.clone()), once);
}

#[test]
fn normalize_edge_cases() {
    assert_eq!(normalize(String::new()), "sha256:");
    assert_eq!(normalize("sha256:".to_string()), "sha256:");
    // Only the exact prefix counts.
    assert_eq!(normalize("sha256".to_string()), "sha256:sha256");
    assert_eq!(normalize("SHA256:ab".to_string()), "sha256:SHA256:ab");
    assert_eq!(normalize("sha512:ab".to_string()), "sha256:sha512:ab");
}

#[test]
fn verify_passes_without_an_expected_digest() {
    assert_eq!(verify(None, &None), Ok(()));
    assert_eq!(verify(None, &Some(prefixed())), Ok(()));
    assert_eq!(verify(None, &Some("anything".to_string())), Ok(()));
}

#[test]
fn verify_passes_on_the_same_digest() {
    assert_eq!(verify(Some(prefixed()), &Some(prefixed())), Ok(()));
}

#[test]
fn verify_prefixes_the_expected_digest() {
    assert_eq!(verify(Some(HEX.to_string()), &Some(prefixed())), Ok(()));
}

#[test]
fn verify_fails_on_another_digest() {
    let other = format!("sha256:{}", "0".repeat(64));
    assert_eq!(
        verify(Some(prefixed()), &Some(other.clone())),
        Err(RegError::IntegrityMismatch)
    );
    assert_eq!(
        verify(Some(HEX.to_string()), &Some(other)),
        Err(RegError::IntegrityMismatch)
    );
}

#[test]
fn verify_does_not_prefix_the_reported_digest() {
    assert_eq!(
        verify(Some(prefixed()), &Some(HEX.to_string())),
        Err(RegError::IntegrityMismatch)
    );
}

#[test]
fn verify_fails_when_nothing_is_reported() {
    assert_eq!(verify(Some(prefixed()), &None), Err(RegError::IntegrityMismatch));
    assert_eq!(verify(Some(HEX.to_string()), &None), Err(RegError::IntegrityMismatch));
    assert_eq!(verify(Some(String::new()), &None), Err(RegError::IntegrityMismatch));
}
