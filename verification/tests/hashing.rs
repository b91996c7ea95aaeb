use fileshare::error::{AppError, HashingError};
use fileshare::hashing::{hash_password, hash_secret, verify_password, verify_secret};

#[test]
fn hash_then_verify_succeeds() {
    let digest = hash_secret("opaque-token-value").ok().unwrap();
    assert!(verify_secret(&digest, "opaque-token-value").ok().unwrap());
}

#[test]
fn verify_rejects_other_secret() {
    let digest = hash_secret("one").ok().unwrap();
    assert!(!verify_secret(&digest, "two").ok().unwrap());
}

#[test]
fn malformed_digest_is_an_error() {
    let r = verify_secret("not a digest at all", "anything");
    assert_eq!(r.err().unwrap(), AppError::Hashing(HashingError::MalformedDigest));
}

#[test]
fn password_helpers_round_trip() {
    let digest = hash_password("hunter22").ok().unwrap();
    assert!(verify_password(&digest, "hunter22").ok().unwrap());
    assert!(!verify_password(&digest, "hunter23").ok().unwrap());
    assert!(verify_password("garbage", "hunter22").is_err());
}
