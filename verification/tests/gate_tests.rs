use item_tracker::gate::{authorize, bytes_equal, credential_matches};
use item_tracker::service::ServiceError;

#[test]
fn gate_admits_the_secret_only() {
    assert!(credential_matches(Some("secret"), "secret"));
    assert!(!credential_matches(Some("Secret"), "secret"));
    assert!(!credential_matches(Some("secre"), "secret"));
    assert!(!credential_matches(Some("secrets"), "secret"));
    assert!(!credential_matches(Some(""), "secret"));
    assert!(!credential_matches(None, "secret"));
    assert!(!credential_matches(None, ""));
    assert!(credential_matches(Some(""), ""));
    assert!(credential_matches(Some("clé✓"), "clé✓"));
}

#[test]
fn bytes_are_compared_in_full() {
    assert!(bytes_equal(&[], &[]));
    assert!(bytes_equal(&[1, 2, 3], &[1, 2, 3]));
    assert!(!bytes_equal(&[1, 2, 3], &[1, 2, 4]));
    assert!(!bytes_equal(&[9, 2, 3], &[1, 2, 3]));
    assert!(!bytes_equal(&[1, 2, 3], &[1, 2]));
    assert!(!bytes_equal(&[0x0F], &[0xF0]));
}

#[test]
fn gate_answers_unauthorized() {
    assert_eq!(authorize(Some("secret"), "secret"), Ok(()));
    assert_eq!(authorize(Some("guess"), "secret"), Err(ServiceError::Unauthorized));
    assert_eq!(authorize(None, "secret"), Err(ServiceError::Unauthorized));
    assert_eq!(authorize(Some("secret "), "secret"), Err(ServiceError::Unauthorized));
}
