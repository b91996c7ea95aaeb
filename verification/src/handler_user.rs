//! The account handlers: registration, verification mail, verification,
//! login, forgot password, and password reset.
//!
//! Each handler takes the stores and the current instant as arguments
//! and performs only decisions and state changes; the surrounding
//! program parses the request, supplies `now`, and sends any outbound
//! mail with the returned token info.  A token's side effect and its
//! consumption happen strictly after every check has passed, so a
//! rejected attempt never loses a token.

use vstd::prelude::*;

use crate::config::AppConfig;
use crate::dtos::{
    is_valid_email, spec_validate_register, spec_validate_reset, ForgotPasswordRequest,
    ForgotPasswordResponse, LoginUserRequest, LoginUserResponse, RegisterUserRequest,
    RegisterUserResponse, ResetPasswordRequest, ResetPasswordResponse,
    SendUserVerificationEmailRequest, SendUserVerificationEmailResponse, VerifyUserResponse,
};
use crate::error::{AppError, BadRequestError, CryptoError, HashingError, ValidationError};
use crate::hashing::{argon2_matches, hash_secret, verify_secret};
use crate::jwt::{encode_jwt, jwt_claims_of, jwt_token_of, AUTH_TOKEN_TTL_SECONDS};
use crate::token::{
    has_token_for, issue_blocked, new_token_value, token_for, TokenInfo, TokenStore, TokenType,
    TOKEN_TTL_SECONDS,
};
use crate::user::{has_user_with_email, user_with_email, UserModel, UserStore};

verus! {

/// Registers a new user: the payload is validated, the password hashed,
/// and the record stored unverified; a duplicate email is refused.
pub fn register_user(users: &mut UserStore, payload: &RegisterUserRequest, now: i64) -> (r: Result<
    RegisterUserResponse,
    AppError,
>)
    requires
        old(users).wf(),
        old(users)@.len() < u64::MAX,
    ensures
        final(users).wf(),
        r is Err ==> final(users)@ == old(users)@,
        match spec_validate_register(
            payload.name@,
            payload.email@,
            payload.password@,
            payload.confirm_password@,
        ) {
            Err(v) => r == Err::<RegisterUserResponse, AppError>(AppError::Validation(v)),
            Ok(()) => {
                &&& (r == Err::<RegisterUserResponse, AppError>(
                    AppError::BadRequest(BadRequestError::DuplicateEmail),
                ) ==> has_user_with_email(old(users)@, payload.email@))
                &&& (has_user_with_email(old(users)@, payload.email@) ==> r is Err)
                &&& (r matches Err(e) ==> e == AppError::BadRequest(BadRequestError::DuplicateEmail)
                    || e == AppError::Hashing(HashingError::HashFailure))
                &&& (r matches Ok(resp) ==> {
                    &&& !has_user_with_email(old(users)@, payload.email@)
                    &&& resp.message@
                        == "Email registered successfully! Please verify your email now."@
                    &&& final(users)@.len() == old(users)@.len() + 1
                    &&& final(users)@ == old(users)@.push(final(users)@.last())
                    &&& ({
                        let u = final(users)@.last();
                        &&& u.id == old(users)@.len()
                        &&& u.name == payload.name@
                        &&& u.email == payload.email@
                        &&& !u.is_verified
                        &&& u.created_at == now
                        &&& argon2_matches(u.hashed_password, payload.password@)
                    })
                })
            },
        },
{
    if let Err(e) = payload.validate() {
        return Err(e);
    }
    let hashed_password = match hash_secret(payload.password.as_str()) {
        Ok(h) => h,
        Err(e) => { return Err(e); },
    };
    let resp = match users.insert_user(
        payload.name.as_str(),
        payload.email.as_str(),
        hashed_password,
        now,
    ) {
        Ok(_) => RegisterUserResponse {
            message: String::from_str(
                "Email registered successfully! Please verify your email now.",
            ),
        },
        Err(e) => { return Err(e); },
    };
    Ok(resp)
}

/// Issues and returns an email-verification token for an existing,
/// still-unverified user; the caller embeds the cleartext in the mail
/// link.  A request inside the cooldown window is refused.
pub fn send_user_verification_email(
    users: &UserStore,
    tokens: &mut TokenStore,
    payload: &SendUserVerificationEmailRequest,
    now: i64,
) -> (r: Result<(SendUserVerificationEmailResponse, TokenInfo), AppError>)
    requires
        users.wf(),
        old(tokens).wf(),
        now + TOKEN_TTL_SECONDS <= i64::MAX,
    ensures
        final(tokens).wf(),
        r is Err ==> final(tokens)@ == old(tokens)@,
        !is_valid_email(payload.email@) ==> r == Err::<
            (SendUserVerificationEmailResponse, TokenInfo),
            AppError,
        >(AppError::Validation(ValidationError::InvalidEmail)),
        is_valid_email(payload.email@) && !has_user_with_email(users@, payload.email@) ==> r
            == Err::<(SendUserVerificationEmailResponse, TokenInfo), AppError>(
            AppError::BadRequest(BadRequestError::NoSuchUser),
        ),
        is_valid_email(payload.email@) && has_user_with_email(users@, payload.email@)
            && user_with_email(users@, payload.email@).is_verified ==> r == Err::<
            (SendUserVerificationEmailResponse, TokenInfo),
            AppError,
        >(AppError::BadRequest(BadRequestError::AlreadyVerified)),
        is_valid_email(payload.email@) && has_user_with_email(users@, payload.email@)
            && !user_with_email(users@, payload.email@).is_verified ==> {
            let uid = user_with_email(users@, payload.email@).id;
            &&& (r == Err::<(SendUserVerificationEmailResponse, TokenInfo), AppError>(
                AppError::BadRequest(BadRequestError::CooldownActive),
            ) <==> issue_blocked(old(tokens)@, uid, TokenType::EmailVerification, now))
            &&& (r matches Err(e) ==> e == AppError::BadRequest(BadRequestError::CooldownActive)
                || e == AppError::Hashing(HashingError::HashFailure) || e == AppError::Crypto(
                CryptoError::RandomSource,
            ))
            &&& (r matches Ok(pair) ==> {
                &&& pair.0.message@
                    == "Please check your email. A verification link has been sent to you."@
                &&& pair.1.user_id == uid
                &&& pair.1.token_type == TokenType::EmailVerification
                &&& has_token_for(final(tokens)@, uid, TokenType::EmailVerification)
                &&& ({
                    let tok = token_for(final(tokens)@, uid, TokenType::EmailVerification);
                    &&& tok.created_at == now
                    &&& tok.expires_at == now + TOKEN_TTL_SECONDS
                    &&& argon2_matches(tok.hashed_token, pair.1.token@)
                })
                &&& forall|u2: u64, t2: TokenType|
                    !(u2 == uid && t2 == TokenType::EmailVerification) ==> (
                    #[trigger] has_token_for(final(tokens)@, u2, t2) <==> has_token_for(
                        old(tokens)@,
                        u2,
                        t2,
                    ))
            })
        },
{
    if let Err(e) = payload.validate() {
        return Err(e);
    }
    let user = match users.user_by_email(payload.email.as_str()) {
        Some(u) => u,
        None => { return Err(AppError::BadRequest(BadRequestError::NoSuchUser)); },
    };
    if user.is_verified {
        return Err(AppError::BadRequest(BadRequestError::AlreadyVerified));
    }
    if tokens.cooldown_active(user.id, TokenType::EmailVerification, now) {
        return Err(AppError::BadRequest(BadRequestError::CooldownActive));
    }
    let token_value = match new_token_value() {
        Ok(t) => t,
        Err(e) => { return Err(e); },
    };
    let info = TokenInfo {
        user_id: user.id,
        token: token_value,
        token_type: TokenType::EmailVerification,
    };
    match tokens.issue_token(&info, now) {
        Ok(()) => Ok(
            (
                SendUserVerificationEmailResponse {
                    message: String::from_str(
                        "Please check your email. A verification link has been sent to you.",
                    ),
                },
                info,
            ),
        ),
        Err(e) => Err(e),
    }
}

/// The outcome of a verification attempt, over the two stores: the
/// checks run in the order absent token, absent user, expired token,
/// already verified, wrong value.
pub open spec fn spec_verify_user_outcome(
    users: Seq<UserModel>,
    tokens: Seq<crate::token::TokenModel>,
    user_id: u64,
    candidate: Seq<char>,
    now: i64,
) -> Result<(), BadRequestError> {
    if !has_token_for(tokens, user_id, TokenType::EmailVerification) {
        Err(BadRequestError::NoSuchToken)
    } else if user_id >= users.len() {
        Err(BadRequestError::NoSuchUser)
    } else if token_for(tokens, user_id, TokenType::EmailVerification).expires_at < now {
        Err(BadRequestError::TokenExpired)
    } else if users[user_id as int].is_verified {
        Err(BadRequestError::AlreadyVerified)
    } else if !argon2_matches(
        token_for(tokens, user_id, TokenType::EmailVerification).hashed_token,
        candidate,
    ) {
        Err(BadRequestError::InvalidToken)
    } else {
        Ok(())
    }
}

/// Verifies a user's email with a token from the mail link: on success
/// the user flips to verified and the token is consumed, as one logical
/// unit after all checks; on any failure nothing changes.
pub fn verify_user(
    users: &mut UserStore,
    tokens: &mut TokenStore,
    user_id: u64,
    verification_token: &str,
    now: i64,
) -> (r: Result<VerifyUserResponse, AppError>)
    requires
        old(users).wf(),
        old(tokens).wf(),
    ensures
        final(users).wf(),
        final(tokens).wf(),
        r is Err ==> final(users)@ == old(users)@ && final(tokens)@ == old(tokens)@,
        match spec_verify_user_outcome(old(users)@, old(tokens)@, user_id, verification_token@, now) {
            Err(b) => r == Err::<VerifyUserResponse, AppError>(AppError::BadRequest(b)),
            Ok(()) => r matches Ok(resp) && {
                &&& resp.message@ == "User verification successful"@
                &&& final(users)@ == old(users)@.update(
                    user_id as int,
                    UserModel { is_verified: true, ..old(users)@[user_id as int] },
                )
                &&& !has_token_for(final(tokens)@, user_id, TokenType::EmailVerification)
                &&& forall|u2: u64, t2: TokenType|
                    !(u2 == user_id && t2 == TokenType::EmailVerification) ==> (
                    #[trigger] has_token_for(final(tokens)@, u2, t2) <==> has_token_for(
                        old(tokens)@,
                        u2,
                        t2,
                    ))
            },
        },
{
    let tok = match tokens.get_token(user_id, TokenType::EmailVerification) {
        Some(t) => t,
        None => { return Err(AppError::BadRequest(BadRequestError::NoSuchToken)); },
    };
    let user = match users.user_by_id(user_id) {
        Some(u) => u,
        None => { return Err(AppError::BadRequest(BadRequestError::NoSuchUser)); },
    };
    if tok.expires_at < now {
        return Err(AppError::BadRequest(BadRequestError::TokenExpired));
    }
    if user.is_verified {
        return Err(AppError::BadRequest(BadRequestError::AlreadyVerified));
    }
    let is_valid_token = match verify_secret(tok.hashed_token.as_str(), verification_token) {
        Ok(b) => b,
        Err(e) => { return Err(e); },
    };
    if !is_valid_token {
        return Err(AppError::BadRequest(BadRequestError::InvalidToken));
    }
    match users.set_verified(user_id) {
        Ok(()) => (),
        Err(e) => { return Err(e); },
    }
    match tokens.consume_token(user_id, TokenType::EmailVerification) {
        Ok(()) => (),
        Err(e) => { return Err(e); },
    }
    Ok(VerifyUserResponse { message: String::from_str("User verification successful") })
}

/// Authenticates a user by email and password and hands back a signed
/// bearer token valid for 24 hours; unknown users, wrong passwords, and
/// unverified accounts are refused in that order.
pub fn login_user(
    users: &UserStore,
    payload: &LoginUserRequest,
    config: &AppConfig,
    now: i64,
) -> (r: Result<LoginUserResponse, AppError>)
    requires
        users.wf(),
        now + AUTH_TOKEN_TTL_SECONDS <= i64::MAX,
    ensures
        !has_user_with_email(users@, payload.email@) ==> r == Err::<LoginUserResponse, AppError>(
            AppError::BadRequest(BadRequestError::NoSuchUser),
        ),
        has_user_with_email(users@, payload.email@) && !argon2_matches(
            user_with_email(users@, payload.email@).hashed_password,
            payload.password@,
        ) ==> r == Err::<LoginUserResponse, AppError>(
            AppError::BadRequest(BadRequestError::WrongPassword),
        ),
        has_user_with_email(users@, payload.email@) && argon2_matches(
            user_with_email(users@, payload.email@).hashed_password,
            payload.password@,
        ) && !user_with_email(users@, payload.email@).is_verified ==> r == Err::<
            LoginUserResponse,
            AppError,
        >(AppError::BadRequest(BadRequestError::NotVerified)),
        has_user_with_email(users@, payload.email@) && argon2_matches(
            user_with_email(users@, payload.email@).hashed_password,
            payload.password@,
        ) && user_with_email(users@, payload.email@).is_verified ==> {
            let uid = user_with_email(users@, payload.email@).id;
            &&& r matches Ok(resp)
            &&& (r matches Ok(resp) ==> {
                &&& resp.token@ == jwt_token_of(
                    uid,
                    now,
                    (now + AUTH_TOKEN_TTL_SECONDS) as i64,
                    config.jwt_secret_key@,
                )
                &&& jwt_claims_of(resp.token@, config.jwt_secret_key@) == Some(
                    (uid, now, (now + AUTH_TOKEN_TTL_SECONDS) as i64),
                )
            })
        },
{
    let user = match users.user_by_email(payload.email.as_str()) {
        Some(u) => u,
        None => { return Err(AppError::BadRequest(BadRequestError::NoSuchUser)); },
    };
    let is_valid_password = match verify_secret(
        user.hashed_password.as_str(),
        payload.password.as_str(),
    ) {
        Ok(b) => b,
        Err(e) => { return Err(e); },
    };
    if !is_valid_password {
        return Err(AppError::BadRequest(BadRequestError::WrongPassword));
    }
    if !user.is_verified {
        return Err(AppError::BadRequest(BadRequestError::NotVerified));
    }
    let token = match encode_jwt(user.id, now, config.jwt_secret_key.as_str()) {
        Ok(t) => t,
        Err(e) => { return Err(e); },
    };
    Ok(LoginUserResponse { token })
}

/// Issues and returns a password-reset token for an existing, verified
/// user; the caller embeds the cleartext in the mail link.  A request
/// inside the cooldown window is refused.
pub fn forgot_password(
    users: &UserStore,
    tokens: &mut TokenStore,
    payload: &ForgotPasswordRequest,
    now: i64,
) -> (r: Result<(ForgotPasswordResponse, TokenInfo), AppError>)
    requires
        users.wf(),
        old(tokens).wf(),
        now + TOKEN_TTL_SECONDS <= i64::MAX,
    ensures
        final(tokens).wf(),
        r is Err ==> final(tokens)@ == old(tokens)@,
        !is_valid_email(payload.email@) ==> r == Err::<
            (ForgotPasswordResponse, TokenInfo),
            AppError,
        >(AppError::Validation(ValidationError::InvalidEmail)),
        is_valid_email(payload.email@) && !has_user_with_email(users@, payload.email@) ==> r
            == Err::<(ForgotPasswordResponse, TokenInfo), AppError>(
            AppError::BadRequest(BadRequestError::NoSuchUser),
        ),
        is_valid_email(payload.email@) && has_user_with_email(users@, payload.email@)
            && !user_with_email(users@, payload.email@).is_verified ==> r == Err::<
            (ForgotPasswordResponse, TokenInfo),
            AppError,
        >(AppError::BadRequest(BadRequestError::NotVerified)),
        is_valid_email(payload.email@) && has_user_with_email(users@, payload.email@)
            && user_with_email(users@, payload.email@).is_verified ==> {
            let uid = user_with_email(users@, payload.email@).id;
            &&& (r == Err::<(ForgotPasswordResponse, TokenInfo), AppError>(
                AppError::BadRequest(BadRequestError::CooldownActive),
            ) <==> issue_blocked(old(tokens)@, uid, TokenType::ForgotPassword, now))
            &&& (r matches Err(e) ==> e == AppError::BadRequest(BadRequestError::CooldownActive)
                || e == AppError::Hashing(HashingError::HashFailure) || e == AppError::Crypto(
                CryptoError::RandomSource,
            ))
            &&& (r matches Ok(pair) ==> {
                &&& pair.0.message@
                    == "Please check your email. A link has been sent to you for reset password."@
                &&& pair.1.user_id == uid
                &&& pair.1.token_type == TokenType::ForgotPassword
                &&& has_token_for(final(tokens)@, uid, TokenType::ForgotPassword)
                &&& ({
                    let tok = token_for(final(tokens)@, uid, TokenType::ForgotPassword);
                    &&& tok.created_at == now
                    &&& tok.expires_at == now + TOKEN_TTL_SECONDS
                    &&& argon2_matches(tok.hashed_token, pair.1.token@)
                })
                &&& forall|u2: u64, t2: TokenType|
                    !(u2 == uid && t2 == TokenType::ForgotPassword) ==> (#[trigger] has_token_for(
                        final(tokens)@,
                        u2,
                        t2,
                    ) <==> has_token_for(old(tokens)@, u2, t2))
            })
        },
{
    if let Err(e) = payload.validate() {
        return Err(e);
    }
    let user = match users.user_by_email(payload.email.as_str()) {
        Some(u) => u,
        None => { return Err(AppError::BadRequest(BadRequestError::NoSuchUser)); },
    };
    if !user.is_verified {
        return Err(AppError::BadRequest(BadRequestError::NotVerified));
    }
    if tokens.cooldown_active(user.id, TokenType::ForgotPassword, now) {
        return Err(AppError::BadRequest(BadRequestError::CooldownActive));
    }
    let token_value = match new_token_value() {
        Ok(t) => t,
        Err(e) => { return Err(e); },
    };
    let info = TokenInfo {
        user_id: user.id,
        token: token_value,
        token_type: TokenType::ForgotPassword,
    };
    match tokens.issue_token(&info, now) {
        Ok(()) => Ok(
            (
                ForgotPasswordResponse {
                    message: String::from_str(
                        "Please check your email. A link has been sent to you for reset password.",
                    ),
                },
                info,
            ),
        ),
        Err(e) => Err(e),
    }
}

/// The outcome of a reset attempt, after the body has validated: the
/// checks run in the order absent token, absent user, expired token,
/// wrong value.
pub open spec fn spec_reset_outcome(
    users: Seq<UserModel>,
    tokens: Seq<crate::token::TokenModel>,
    user_id: u64,
    candidate: Seq<char>,
    now: i64,
) -> Result<(), BadRequestError> {
    if !has_token_for(tokens, user_id, TokenType::ForgotPassword) {
        Err(BadRequestError::NoSuchToken)
    } else if user_id >= users.len() {
        Err(BadRequestError::NoSuchUser)
    } else if token_for(tokens, user_id, TokenType::ForgotPassword).expires_at < now {
        Err(BadRequestError::TokenExpired)
    } else if !argon2_matches(
        token_for(tokens, user_id, TokenType::ForgotPassword).hashed_token,
        candidate,
    ) {
        Err(BadRequestError::InvalidToken)
    } else {
        Ok(())
    }
}

/// Resets a user's password with a token from the mail link: on success
/// the stored digest is replaced by one that matches the new password
/// and the token is consumed; on any failure nothing changes.
pub fn reset_password(
    users: &mut UserStore,
    tokens: &mut TokenStore,
    user_id: u64,
    forgot_password_token: &str,
    payload: &ResetPasswordRequest,
    now: i64,
) -> (r: Result<ResetPasswordResponse, AppError>)
    requires
        old(users).wf(),
        old(tokens).wf(),
    ensures
        final(users).wf(),
        final(tokens).wf(),
        r is Err ==> final(users)@ == old(users)@ && final(tokens)@ == old(tokens)@,
        match spec_validate_reset(payload.new_password@, payload.confirm_new_password@) {
            Err(v) => r == Err::<ResetPasswordResponse, AppError>(AppError::Validation(v)),
            Ok(()) => match spec_reset_outcome(
                old(users)@,
                old(tokens)@,
                user_id,
                forgot_password_token@,
                now,
            ) {
                Err(b) => r == Err::<ResetPasswordResponse, AppError>(AppError::BadRequest(b)),
                Ok(()) => (r matches Ok(resp) && {
                    &&& resp.message@ == "Password has been reset successfully"@
                    &&& final(users)@ == old(users)@.update(
                        user_id as int,
                        UserModel {
                            hashed_password: final(users)@[user_id as int].hashed_password,
                            ..old(users)@[user_id as int]
                        },
                    )
                    &&& argon2_matches(
                        final(users)@[user_id as int].hashed_password,
                        payload.new_password@,
                    )
                    &&& !has_token_for(final(tokens)@, user_id, TokenType::ForgotPassword)
                    &&& forall|u2: u64, t2: TokenType|
                        !(u2 == user_id && t2 == TokenType::ForgotPassword) ==> (
                        #[trigger] has_token_for(final(tokens)@, u2, t2) <==> has_token_for(
                            old(tokens)@,
                            u2,
                            t2,
                        ))
                }) || r == Err::<ResetPasswordResponse, AppError>(
                    AppError::Hashing(HashingError::HashFailure),
                ),
            },
        },
{
    if let Err(e) = payload.validate() {
        return Err(e);
    }
    let tok = match tokens.get_token(user_id, TokenType::ForgotPassword) {
        Some(t) => t,
        None => { return Err(AppError::BadRequest(BadRequestError::NoSuchToken)); },
    };
    if users.user_by_id(user_id).is_none() {
        return Err(AppError::BadRequest(BadRequestError::NoSuchUser));
    }
    if tok.expires_at < now {
        return Err(AppError::BadRequest(BadRequestError::TokenExpired));
    }
    let is_valid_token = match verify_secret(tok.hashed_token.as_str(), forgot_password_token) {
        Ok(b) => b,
        Err(e) => { return Err(e); },
    };
    if !is_valid_token {
        return Err(AppError::BadRequest(BadRequestError::InvalidToken));
    }
    let new_hashed_password = match hash_secret(payload.new_password.as_str()) {
        Ok(h) => h,
        Err(e) => { return Err(e); },
    };
    match users.set_password(user_id, new_hashed_password) {
        Ok(()) => (),
        Err(e) => { return Err(e); },
    }
    match tokens.consume_token(user_id, TokenType::ForgotPassword) {
        Ok(()) => (),
        Err(e) => { return Err(e); },
    }
    Ok(ResetPasswordResponse { message: String::from_str("Password has been reset successfully") })
}

} // verus!
