use fileshare::error::{AppError, BadRequestError};
use fileshare::token::{TokenInfo, TokenStore, TokenType};

const T0: i64 = 1_700_000_000;

fn info(user_id: u64, token: &str, token_type: TokenType) -> TokenInfo {
    TokenInfo { user_id, token: token.to_string(), token_type }
}

#[test]
fn cooldown_blocks_second_issue_within_five_minutes() {
    let mut store = TokenStore::new();
    store.issue_token(&info(1, "first-token", TokenType::EmailVerification), T0).ok().unwrap();
    let r = store.issue_token(&info(1, "second-token", TokenType::EmailVerification), T0 + 299);
    assert_eq!(r.err().unwrap(), AppError::BadRequest(BadRequestError::CooldownActive));
    assert_eq!(store.len(), 1);
}

#[test]
fn reissue_after_cooldown_supersedes_old_token() {
    let mut store = TokenStore::new();
    store.issue_token(&info(1, "first-token", TokenType::EmailVerification), T0).ok().unwrap();
    store.issue_token(&info(1, "second-token", TokenType::EmailVerification), T0 + 300)
        .ok()
        .unwrap();
    assert_eq!(store.len(), 1);
    let r = store.check_token(1, TokenType::EmailVerification, "first-token", T0 + 301);
    assert_eq!(r.err().unwrap(), AppError::BadRequest(BadRequestError::InvalidToken));
    store.check_token(1, TokenType::EmailVerification, "second-token", T0 + 301).ok().unwrap();
}

#[test]
fn token_single_use_after_consumption() {
    let mut store = TokenStore::new();
    store.issue_token(&info(7, "the-token", TokenType::EmailVerification), T0).ok().unwrap();
    store.check_token(7, TokenType::EmailVerification, "the-token", T0 + 10).ok().unwrap();
    store.consume_token(7, TokenType::EmailVerification).ok().unwrap();
    let r = store.check_token(7, TokenType::EmailVerification, "the-token", T0 + 11);
    assert_eq!(r.err().unwrap(), AppError::BadRequest(BadRequestError::NoSuchToken));
}

#[test]
fn expired_token_fails_even_with_correct_value() {
    let mut store = TokenStore::new();
    store.issue_token(&info(2, "valid-value", TokenType::ForgotPassword), T0).ok().unwrap();
    let r = store.check_token(2, TokenType::ForgotPassword, "valid-value", T0 + 1801);
    assert_eq!(r.err().unwrap(), AppError::BadRequest(BadRequestError::TokenExpired));
    // The token was not consumed by the failed attempt.
    assert_eq!(store.len(), 1);
}

#[test]
fn purposes_are_independent() {
    let mut store = TokenStore::new();
    store.issue_token(&info(3, "verify-value", TokenType::EmailVerification), T0).ok().unwrap();
    store.issue_token(&info(3, "reset-value", TokenType::ForgotPassword), T0 + 1).ok().unwrap();
    assert_eq!(store.len(), 2);
    let r = store.check_token(3, TokenType::EmailVerification, "reset-value", T0 + 2);
    assert_eq!(r.err().unwrap(), AppError::BadRequest(BadRequestError::InvalidToken));
}

#[test]
fn token_type_labels() {
    assert_eq!(TokenType::EmailVerification.as_str(), "EmailVerification");
    assert_eq!(TokenType::ForgotPassword.as_str(), "ForgotPassword");
}
