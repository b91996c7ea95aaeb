//! One-way hashing and verification of secrets.
//!
//! Passwords and token values are never stored in cleartext: they are
//! hashed with Argon2id into a self-contained digest string that embeds
//! the algorithm parameters and a fresh random salt, and later candidates
//! are verified against that digest.  No caller ever supplies a salt.

use argon2::PasswordHasher;
use vstd::prelude::*;

use crate::error::{AppError, HashingError};

verus! {

/// Whether a digest string parses as a well-formed password hash in the
/// PHC string format.
pub uninterp spec fn argon2_digest_wf(digest: Seq<char>) -> bool;

/// Whether Argon2 verification of a candidate secret against a digest
/// string succeeds.
pub uninterp spec fn argon2_matches(digest: Seq<char>, candidate: Seq<char>) -> bool;

/// Relies on `argon2::Argon2::hash_password` and the PHC string format:
/// the digest embeds the parameters and a fresh random salt, so it parses
/// back as a well-formed hash and verifies against exactly the secret it
/// was computed from.  It fails only when the randomness source or the
/// hash function itself fails.
#[verifier::external_body]
pub fn hash_secret(secret: &str) -> (r: Result<String, AppError>)
    ensures
        r matches Ok(d) ==> argon2_digest_wf(d@) && argon2_matches(d@, secret@),
        r matches Err(e) ==> e == AppError::Hashing(HashingError::HashFailure),
{
    let digest = argon2::Argon2::default()
        .hash_password(secret.as_bytes())
        .map_err(|_| AppError::Hashing(HashingError::HashFailure))?;
    Ok(digest.to_string())
}

/// Relies on `argon2::PasswordHash::new` — whether a digest string is
/// well-formed is a function of the string alone — and on
/// `argon2::Argon2::verify_password` — whether a candidate matches a
/// digest is a function of the two strings alone.
#[verifier::external_body]
pub fn verify_secret(hashed_secret: &str, given_value: &str) -> (r: Result<bool, AppError>)
    ensures
        r is Ok <==> argon2_digest_wf(hashed_secret@),
        r matches Ok(b) ==> b == argon2_matches(hashed_secret@, given_value@),
        r matches Err(e) ==> e == AppError::Hashing(HashingError::MalformedDigest),
{
    let parsed = argon2::PasswordHash::new(hashed_secret).map_err(
        |_| AppError::Hashing(HashingError::MalformedDigest),
    )?;
    Ok(
        argon2::PasswordVerifier::verify_password(
            &argon2::Argon2::default(),
            given_value.as_bytes(),
            &parsed,
        ).is_ok(),
    )
}

/// Hashes a user password into a digest string; the digest is well-formed
/// and verifies against the password.
pub fn hash_password(password: &str) -> (r: Result<String, String>)
    ensures
        r matches Ok(d) ==> argon2_digest_wf(d@) && argon2_matches(d@, password@),
{
    match hash_secret(password) {
        Ok(d) => Ok(d),
        Err(_) => Err(String::from_str("password hashing failed")),
    }
}

/// Verifies a candidate password against a stored digest string; a
/// malformed digest is an error, a well-formed one yields the exact
/// verification outcome.
pub fn verify_password(hashed_password: &str, password: &str) -> (r: Result<bool, String>)
    ensures
        r is Ok <==> argon2_digest_wf(hashed_password@),
        r matches Ok(b) ==> b == argon2_matches(hashed_password@, password@),
{
    match verify_secret(hashed_password, password) {
        Ok(b) => Ok(b),
        Err(_) => Err(String::from_str("malformed password digest")),
    }
}

} // verus!
