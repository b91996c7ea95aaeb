use fileshare::config::AppConfig;
use fileshare::dtos::{
    ForgotPasswordRequest, LoginUserRequest, RegisterUserRequest, ResetPasswordRequest,
    SendUserVerificationEmailRequest,
};
use fileshare::error::{AppError, BadRequestError};
use fileshare::handler_user::{
    forgot_password, login_user, register_user, reset_password, send_user_verification_email,
    verify_user,
};
use fileshare::jwt::decode_jwt;
use fileshare::token::TokenStore;
use fileshare::user::UserStore;

const T0: i64 = 1_700_000_000;

fn config() -> AppConfig {
    AppConfig {
        server_url: "127.0.0.1:8000".to_string(),
        mongodb_url: String::new(),
        sendgrid_api_key: String::new(),
        sendgrid_sender_name: String::new(),
        sendgrid_sender_email: String::new(),
        jwt_secret_key: "test-signing-secret".to_string(),
        cloudinary_cloud_name: String::new(),
        cloudinary_api_key: String::new(),
        cloudinary_api_secret: String::new(),
    }
}

fn register_payload(email: &str, password: &str) -> RegisterUserRequest {
    RegisterUserRequest {
        name: "user".to_string(),
        email: email.to_string(),
        password: password.to_string(),
        confirm_password: password.to_string(),
    }
}

fn login_payload(email: &str, password: &str) -> LoginUserRequest {
    LoginUserRequest { email: email.to_string(), password: password.to_string() }
}

#[test]
fn register_verify_login_scenario() {
    let mut users = UserStore::new();
    let mut tokens = TokenStore::new();
    let cfg = config();

    register_user(&mut users, &register_payload("a@x.com", "pw1"), T0).ok().unwrap();

    let before = login_user(&users, &login_payload("a@x.com", "pw1"), &cfg, T0 + 1);
    assert_eq!(before.err().unwrap(), AppError::BadRequest(BadRequestError::NotVerified));

    let (_, info) = send_user_verification_email(
        &users,
        &mut tokens,
        &SendUserVerificationEmailRequest { email: "a@x.com".to_string() },
        T0 + 2,
    )
    .ok()
    .unwrap();

    verify_user(&mut users, &mut tokens, info.user_id, &info.token, T0 + 3).ok().unwrap();

    let after = login_user(&users, &login_payload("a@x.com", "pw1"), &cfg, T0 + 4).ok().unwrap();
    assert!(!after.token.is_empty());
    assert_eq!(
        decode_jwt(&after.token, T0 + 5, "test-signing-secret").ok().unwrap(),
        info.user_id
    );
}

#[test]
fn duplicate_email_is_refused() {
    let mut users = UserStore::new();
    register_user(&mut users, &register_payload("dup@x.com", "pw123"), T0).ok().unwrap();
    let r = register_user(&mut users, &register_payload("dup@x.com", "other-pw"), T0 + 1);
    assert_eq!(r.err().unwrap(), AppError::BadRequest(BadRequestError::DuplicateEmail));
    assert_eq!(users.len(), 1);
}

#[test]
fn login_with_wrong_password_or_unknown_user() {
    let mut users = UserStore::new();
    let cfg = config();
    register_user(&mut users, &register_payload("b@x.com", "pw123"), T0).ok().unwrap();
    let wrong = login_user(&users, &login_payload("b@x.com", "pw124"), &cfg, T0 + 1);
    assert_eq!(wrong.err().unwrap(), AppError::BadRequest(BadRequestError::WrongPassword));
    let unknown = login_user(&users, &login_payload("nobody@x.com", "pw123"), &cfg, T0 + 1);
    assert_eq!(unknown.err().unwrap(), AppError::BadRequest(BadRequestError::NoSuchUser));
}

#[test]
fn verification_email_for_unknown_or_verified_user() {
    let mut users = UserStore::new();
    let mut tokens = TokenStore::new();
    let unknown = send_user_verification_email(
        &users,
        &mut tokens,
        &SendUserVerificationEmailRequest { email: "ghost@x.com".to_string() },
        T0,
    );
    assert_eq!(unknown.err().unwrap(), AppError::BadRequest(BadRequestError::NoSuchUser));

    register_user(&mut users, &register_payload("c@x.com", "pw123"), T0).ok().unwrap();
    let (_, info) = send_user_verification_email(
        &users,
        &mut tokens,
        &SendUserVerificationEmailRequest { email: "c@x.com".to_string() },
        T0 + 1,
    )
    .ok()
    .unwrap();
    verify_user(&mut users, &mut tokens, info.user_id, &info.token, T0 + 2).ok().unwrap();
    let again = send_user_verification_email(
        &users,
        &mut tokens,
        &SendUserVerificationEmailRequest { email: "c@x.com".to_string() },
        T0 + 3,
    );
    assert_eq!(again.err().unwrap(), AppError::BadRequest(BadRequestError::AlreadyVerified));
}

#[test]
fn verification_cooldown_applies_across_handlers() {
    let mut users = UserStore::new();
    let mut tokens = TokenStore::new();
    register_user(&mut users, &register_payload("d@x.com", "pw123"), T0).ok().unwrap();
    let payload = SendUserVerificationEmailRequest { email: "d@x.com".to_string() };
    send_user_verification_email(&users, &mut tokens, &payload, T0 + 1).ok().unwrap();
    let again = send_user_verification_email(&users, &mut tokens, &payload, T0 + 200);
    assert_eq!(again.err().unwrap(), AppError::BadRequest(BadRequestError::CooldownActive));
}

#[test]
fn wrong_verification_token_does_not_consume() {
    let mut users = UserStore::new();
    let mut tokens = TokenStore::new();
    register_user(&mut users, &register_payload("e@x.com", "pw123"), T0).ok().unwrap();
    let (_, info) = send_user_verification_email(
        &users,
        &mut tokens,
        &SendUserVerificationEmailRequest { email: "e@x.com".to_string() },
        T0 + 1,
    )
    .ok()
    .unwrap();
    let bad = verify_user(&mut users, &mut tokens, info.user_id, "not-the-token", T0 + 2);
    assert_eq!(bad.err().unwrap(), AppError::BadRequest(BadRequestError::InvalidToken));
    // The real token still works afterwards.
    verify_user(&mut users, &mut tokens, info.user_id, &info.token, T0 + 3).ok().unwrap();
}

#[test]
fn forgot_and_reset_password_flow() {
    let mut users = UserStore::new();
    let mut tokens = TokenStore::new();
    let cfg = config();
    register_user(&mut users, &register_payload("f@x.com", "pw123"), T0).ok().unwrap();

    // Reset requires a verified account.
    let early = forgot_password(
        &users,
        &mut tokens,
        &ForgotPasswordRequest { email: "f@x.com".to_string() },
        T0 + 1,
    );
    assert_eq!(early.err().unwrap(), AppError::BadRequest(BadRequestError::NotVerified));

    let (_, vinfo) = send_user_verification_email(
        &users,
        &mut tokens,
        &SendUserVerificationEmailRequest { email: "f@x.com".to_string() },
        T0 + 2,
    )
    .ok()
    .unwrap();
    verify_user(&mut users, &mut tokens, vinfo.user_id, &vinfo.token, T0 + 3).ok().unwrap();

    let (_, rinfo) = forgot_password(
        &users,
        &mut tokens,
        &ForgotPasswordRequest { email: "f@x.com".to_string() },
        T0 + 4,
    )
    .ok()
    .unwrap();
    let body = ResetPasswordRequest {
        new_password: "brand-new-pw".to_string(),
        confirm_new_password: "brand-new-pw".to_string(),
    };
    reset_password(&mut users, &mut tokens, rinfo.user_id, &rinfo.token, &body, T0 + 5)
        .ok()
        .unwrap();

    let old = login_user(&users, &login_payload("f@x.com", "pw123"), &cfg, T0 + 6);
    assert_eq!(old.err().unwrap(), AppError::BadRequest(BadRequestError::WrongPassword));
    login_user(&users, &login_payload("f@x.com", "brand-new-pw"), &cfg, T0 + 7).ok().unwrap();

    // The reset token was consumed with the reset.
    let reuse = reset_password(&mut users, &mut tokens, rinfo.user_id, &rinfo.token, &body, T0 + 8);
    assert_eq!(reuse.err().unwrap(), AppError::BadRequest(BadRequestError::NoSuchToken));
}
