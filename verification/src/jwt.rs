//! Stateless bearer-token issuance and verification.
//!
//! A login hands the client a signed token embedding the user id, the
//! issue instant, and an expiry 24 hours later (HMAC-SHA256).  Requests
//! are authenticated by verifying the signature and the expiry; no
//! server-side record backs these tokens, so they cannot be revoked
//! before expiry.  This codec is distinct from the stored single-use
//! tokens of the token lifecycle.

use vstd::prelude::*;

use crate::error::{AppError, AuthError};

verus! {

/// Seconds a bearer token stays valid: 24 hours.
pub const AUTH_TOKEN_TTL_SECONDS: i64 = 86400;

/// The claims payload embedded in a bearer token.
#[derive(Clone, Copy, Debug, PartialEq, Eq, Structural)]
pub struct JwtClaim {
    /// The authenticated user's id.
    pub user_id: u64,
    /// The instant the token was issued, as a Unix timestamp.
    pub iat: i64,
    /// The instant the token expires, as a Unix timestamp.
    pub exp: i64,
}

/// The signed token string that HMAC-SHA256 signing produces for the
/// claims `{user_id, iat, exp}` under a secret.
pub uninterp spec fn jwt_token_of(user_id: u64, iat: i64, exp: i64, secret: Seq<char>) -> Seq<
    char,
>;

/// What decoding a token string under a secret yields: the embedded
/// `(user_id, iat, exp)` claims when the signature verifies and the
/// claims parse, nothing otherwise.
pub uninterp spec fn jwt_claims_of(token: Seq<char>, secret: Seq<char>) -> Option<(u64, i64, i64)>;

/// Relies on `jsonwebtoken::encode` with the default HS256 header: the
/// token is a function of the claims and the secret alone, and decoding
/// it with the same secret yields the claims again.  The call cannot
/// fail: HS256 accepts a secret of any length, these claims always
/// serialize, and the header's family matches the key's, so every error
/// branch of `encode` is unreachable.
#[verifier::external_body]
fn jwt_encode(user_id: u64, iat: i64, exp: i64, secret: &str) -> (r: String)
    ensures
        r@ == jwt_token_of(user_id, iat, exp, secret@),
        jwt_claims_of(r@, secret@) == Some((user_id, iat, exp)),
{
    let mut claims = serde_json::Map::new();
    claims.insert("user_id".to_string(), serde_json::Value::from(user_id));
    claims.insert("iat".to_string(), serde_json::Value::from(iat));
    claims.insert("exp".to_string(), serde_json::Value::from(exp));
    jsonwebtoken::encode(
        &jsonwebtoken::Header::default(),
        &serde_json::Value::Object(claims),
        &jsonwebtoken::EncodingKey::from_secret(secret.as_bytes()),
    ).expect("HS256 signing of plain claims cannot fail")
}

/// Relies on `jsonwebtoken::decode` with signature validation and no
/// clock-based check: the outcome is a function of the token string and
/// the secret alone.
#[verifier::external_body]
fn jwt_decode(token: &str, secret: &str) -> (r: Option<(u64, i64, i64)>)
    ensures
        r == jwt_claims_of(token@, secret@),
{
    let mut validation = jsonwebtoken::Validation::new(jsonwebtoken::Algorithm::HS256);
    validation.validate_exp = false;
    validation.required_spec_claims.clear();
    let data = jsonwebtoken::decode::<serde_json::Value>(
        token,
        &jsonwebtoken::DecodingKey::from_secret(secret.as_bytes()),
        &validation,
    ).ok()?;
    let user_id = data.claims.get("user_id")?.as_u64()?;
    let iat = data.claims.get("iat")?.as_i64()?;
    let exp = data.claims.get("exp")?.as_i64()?;
    Some((user_id, iat, exp))
}

/// Issues a bearer token for a user: the claims are the user id, the
/// current instant, and an expiry 24 hours later, signed with the server
/// secret.  Issuance always succeeds.
pub fn encode_jwt(user_id: u64, now: i64, secret: &str) -> (r: Result<String, AppError>)
    requires
        now + AUTH_TOKEN_TTL_SECONDS <= i64::MAX,
    ensures
        r matches Ok(t) && {
            &&& t@ == jwt_token_of(user_id, now, (now + AUTH_TOKEN_TTL_SECONDS) as i64, secret@)
            &&& jwt_claims_of(t@, secret@) == Some(
                (user_id, now, (now + AUTH_TOKEN_TTL_SECONDS) as i64),
            )
        },
{
    let claim = JwtClaim { user_id, iat: now, exp: now + AUTH_TOKEN_TTL_SECONDS };
    Ok(jwt_encode(claim.user_id, claim.iat, claim.exp, secret))
}

/// Verifies a bearer token against the server secret and the current
/// instant: the embedded user id when the signature verifies and the
/// expiry has not passed, `Unauthorized` otherwise.
pub fn decode_jwt(jwt_token: &str, now: i64, secret: &str) -> (r: Result<u64, AppError>)
    ensures
        match jwt_claims_of(jwt_token@, secret@) {
            Some(c) => if now < c.2 {
                r == Ok::<u64, AppError>(c.0)
            } else {
                r == Err::<u64, AppError>(AppError::Unauthorized(AuthError::ExpiredBearer))
            },
            None => r == Err::<u64, AppError>(AppError::Unauthorized(AuthError::InvalidBearer)),
        },
{
    match jwt_decode(jwt_token, secret) {
        Some(claims) => {
            if now < claims.2 {
                Ok(claims.0)
            } else {
                Err(AppError::Unauthorized(AuthError::ExpiredBearer))
            }
        },
        None => Err(AppError::Unauthorized(AuthError::InvalidBearer)),
    }
}

/// Extracts the token from an `Authorization` header value of the shape
/// `Bearer <token>`.
pub fn bearer_token(auth_header: &str) -> (r: Option<String>)
    ensures
        match r {
            Some(t) => auth_header@.len() >= 7 && auth_header@.subrange(0, 7) == "Bearer "@ && t@
                == auth_header@.subrange(7, auth_header@.len() as int),
            None => !(auth_header@.len() >= 7 && auth_header@.subrange(0, 7) == "Bearer "@),
        },
{
    let n = auth_header.unicode_len();
    if n < 7 {
        return None;
    }
    let prefix = String::from_str(auth_header.substring_char(0, 7));
    if prefix == String::from_str("Bearer ") {
        Some(String::from_str(auth_header.substring_char(7, n)))
    } else {
        None
    }
}

} // verus!
