use fileshare::error::{AppError, AuthError};
use fileshare::jwt::{bearer_token, decode_jwt, encode_jwt};

const T0: i64 = 1_700_000_000;

#[test]
fn issued_token_decodes_to_the_user() {
    let token = encode_jwt(42, T0, "server-secret").ok().unwrap();
    assert_eq!(decode_jwt(&token, T0 + 100, "server-secret").ok().unwrap(), 42);
}

#[test]
fn expired_token_is_unauthorized() {
    let token = encode_jwt(42, T0, "server-secret").ok().unwrap();
    let r = decode_jwt(&token, T0 + 86_400, "server-secret");
    assert_eq!(r.err().unwrap(), AppError::Unauthorized(AuthError::ExpiredBearer));
}

#[test]
fn wrong_secret_is_unauthorized() {
    let token = encode_jwt(42, T0, "server-secret").ok().unwrap();
    let r = decode_jwt(&token, T0 + 1, "other-secret");
    assert_eq!(r.err().unwrap(), AppError::Unauthorized(AuthError::InvalidBearer));
}

#[test]
fn garbage_token_is_unauthorized() {
    let r = decode_jwt("definitely.not.a-token", T0, "server-secret");
    assert_eq!(r.err().unwrap(), AppError::Unauthorized(AuthError::InvalidBearer));
}

#[test]
fn bearer_header_parsing() {
    assert_eq!(bearer_token("Bearer abc.def.ghi"), Some("abc.def.ghi".to_string()));
    assert_eq!(bearer_token("Bearer "), Some(String::new()));
    assert_eq!(bearer_token("Token abc"), None);
    assert_eq!(bearer_token("Bear"), None);
}
