use fileshare::dtos::{
    RegisterUserRequest, ResetPasswordRequest, SendUserVerificationEmailRequest,
    UploadFileRequest,
};
use fileshare::error::{
    AppError, AuthError, BadRequestError, CryptoError, HashingError, ValidationError,
};

const T0: i64 = 1_700_000_000;

fn register(name: &str, email: &str, password: &str, confirm: &str) -> RegisterUserRequest {
    RegisterUserRequest {
        name: name.to_string(),
        email: email.to_string(),
        password: password.to_string(),
        confirm_password: confirm.to_string(),
    }
}

#[test]
fn register_validation_rules_in_order() {
    let r = register("", "a@x.com", "pw123", "pw123").validate();
    assert_eq!(r.err().unwrap(), AppError::Validation(ValidationError::EmptyName));
    let r = register("u", "not-an-email", "pw123", "pw123").validate();
    assert_eq!(r.err().unwrap(), AppError::Validation(ValidationError::InvalidEmail));
    let r = register("u", "a@x.com", "pw123", "pw124").validate();
    assert_eq!(r.err().unwrap(), AppError::Validation(ValidationError::PasswordMismatch));
    assert!(register("u", "a@x.com", "pw123", "pw123").validate().is_ok());
    // The password itself is unconstrained: a three-character one passes.
    assert!(register("u", "a@x.com", "pw1", "pw1").validate().is_ok());
}

#[test]
fn email_only_payloads_check_the_shape() {
    let bad = SendUserVerificationEmailRequest { email: "@@".to_string() };
    assert_eq!(
        bad.validate().err().unwrap(),
        AppError::Validation(ValidationError::InvalidEmail)
    );
    let good = SendUserVerificationEmailRequest { email: "a@x.com".to_string() };
    assert!(good.validate().is_ok());
    let empty = SendUserVerificationEmailRequest { email: String::new() };
    assert!(empty.validate().is_err());
}

#[test]
fn reset_validation_requires_matching_confirmation() {
    let mismatch = ResetPasswordRequest {
        new_password: "new-password".to_string(),
        confirm_new_password: "other-password".to_string(),
    };
    assert_eq!(
        mismatch.validate().err().unwrap(),
        AppError::Validation(ValidationError::PasswordMismatch)
    );
    let matching = ResetPasswordRequest {
        new_password: "pw".to_string(),
        confirm_new_password: "pw".to_string(),
    };
    assert!(matching.validate().is_ok());
}

#[test]
fn upload_validation_rules_in_order() {
    let mut req = UploadFileRequest::default();
    req.expires_at = T0 + 10;
    req.size = 1;
    req.max_downloads = 1;
    // Default file name is empty.
    assert_eq!(
        req.validate(T0).err().unwrap(),
        AppError::Validation(ValidationError::EmptyFileName)
    );
    req.file_name = "f".to_string();
    req.size = 0;
    assert_eq!(
        req.validate(T0).err().unwrap(),
        AppError::Validation(ValidationError::SizeOutOfRange)
    );
    req.size = 10_000_001;
    assert_eq!(
        req.validate(T0).err().unwrap(),
        AppError::Validation(ValidationError::SizeOutOfRange)
    );
    req.size = 10;
    req.expires_at = T0;
    assert_eq!(
        req.validate(T0).err().unwrap(),
        AppError::Validation(ValidationError::ExpiryNotInFuture)
    );
    req.expires_at = T0 + 10;
    req.max_downloads = 0;
    assert_eq!(
        req.validate(T0).err().unwrap(),
        AppError::Validation(ValidationError::MaxDownloadsOutOfRange)
    );
    req.max_downloads = 11;
    assert_eq!(
        req.validate(T0).err().unwrap(),
        AppError::Validation(ValidationError::MaxDownloadsOutOfRange)
    );
    req.max_downloads = 10;
    assert!(req.validate(T0).is_ok());
}

#[test]
fn upload_request_default_values() {
    let req = UploadFileRequest::default();
    assert_eq!(req.file_name, "");
    assert_eq!(req.user_id, 0);
    assert!(req.file_data.is_empty());
    assert_eq!(req.size, 0);
    assert_eq!(req.cid, "cid");
    assert_eq!(req.mime_type, "mime_type");
    assert_eq!(req.password, "default-password");
    assert_eq!(req.expires_at, 0);
    assert_eq!(req.max_downloads, 0);
}

#[test]
fn error_kinds_map_to_status_codes() {
    assert_eq!(AppError::Validation(ValidationError::EmptyName).status_code(), 400);
    assert_eq!(AppError::BadRequest(BadRequestError::QuotaExceeded).status_code(), 400);
    assert_eq!(AppError::Unauthorized(AuthError::InvalidBearer).status_code(), 401);
    assert_eq!(AppError::Crypto(CryptoError::DecryptFailure).status_code(), 500);
    assert_eq!(AppError::Hashing(HashingError::MalformedDigest).status_code(), 500);
    assert_eq!(AppError::Database.status_code(), 500);
    assert_eq!(AppError::Storage.status_code(), 500);
}

#[test]
fn error_messages_name_the_rule() {
    assert_eq!(
        AppError::BadRequest(BadRequestError::CooldownActive).message(),
        "Next request can be made after 5 minutes only"
    );
    assert_eq!(AppError::BadRequest(BadRequestError::TokenExpired).message(), "Token expired!");
    assert_eq!(
        AppError::Validation(ValidationError::PasswordMismatch).message(),
        "Passwords do not match"
    );
    assert_eq!(
        AppError::BadRequest(BadRequestError::QuotaExceeded).message(),
        "File has reached its maximum download limit."
    );
    assert_eq!(AppError::Crypto(CryptoError::DecryptFailure).message(), "Can not decrypt file");
}

#[test]
fn error_kinds_have_stable_labels() {
    assert_eq!(AppError::Validation(ValidationError::EmptyName).kind(), "Validation");
    assert_eq!(AppError::BadRequest(BadRequestError::NoSuchUser).kind(), "BadRequest");
    assert_eq!(AppError::Unauthorized(AuthError::ExpiredBearer).kind(), "Unauthorized");
    assert_eq!(AppError::Crypto(CryptoError::TruncatedInput).kind(), "Crypto");
    assert_eq!(AppError::Hashing(HashingError::HashFailure).kind(), "Hashing");
    assert_eq!(AppError::Database.kind(), "Database");
    assert_eq!(AppError::Storage.kind(), "Storage");
}
