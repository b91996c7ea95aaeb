//! Request and response bodies of the HTTP surface, with their
//! validation rules.
//!
//! Validation happens before any state is touched; each rule is checked
//! in declaration order and the first violation is reported.  The email
//! shape is the HTML5 one, delegated to the `validator` crate.

use vstd::prelude::*;

use crate::error::{AppError, ValidationError};

verus! {

/// The largest accepted upload, in bytes.
pub const UPLOAD_MAX_BYTES: u64 = 10000000;

/// Whether a string has the HTML5 email shape.
pub uninterp spec fn is_valid_email(s: Seq<char>) -> bool;

/// Relies on `validator::ValidateEmail::validate_email` for `&str`: the
/// outcome is a function of the string alone.
#[verifier::external_body]
pub fn validate_email(s: &str) -> (r: bool)
    ensures
        r == is_valid_email(s@),
{
    validator::ValidateEmail::validate_email(&s)
}

/// The outcome of validating a registration request: a non-empty name, a
/// well-formed email, and a matching confirmation, checked in that order.
/// The password itself is unconstrained.
pub open spec fn spec_validate_register(
    name: Seq<char>,
    email: Seq<char>,
    password: Seq<char>,
    confirm_password: Seq<char>,
) -> Result<(), ValidationError> {
    if name.len() < 1 {
        Err(ValidationError::EmptyName)
    } else if !is_valid_email(email) {
        Err(ValidationError::InvalidEmail)
    } else if confirm_password != password {
        Err(ValidationError::PasswordMismatch)
    } else {
        Ok(())
    }
}

/// The outcome of validating a password-reset body: the confirmation must
/// match the new password.
pub open spec fn spec_validate_reset(
    new_password: Seq<char>,
    confirm_new_password: Seq<char>,
) -> Result<(), ValidationError> {
    if confirm_new_password != new_password {
        Err(ValidationError::PasswordMismatch)
    } else {
        Ok(())
    }
}

/// The body of a registration request.
pub struct RegisterUserRequest {
    /// The display name; must not be empty.
    pub name: String,
    /// The email address; must have the email shape.
    pub email: String,
    /// The password.
    pub password: String,
    /// Must equal `password`.
    pub confirm_password: String,
}

impl RegisterUserRequest {
    /// Checks the registration rules in declaration order.
    pub fn validate(&self) -> (r: Result<(), AppError>)
        ensures
            match spec_validate_register(
                self.name@,
                self.email@,
                self.password@,
                self.confirm_password@,
            ) {
                Ok(()) => r == Ok::<(), AppError>(()),
                Err(v) => r == Err::<(), AppError>(AppError::Validation(v)),
            },
    {
        if self.name.as_str().unicode_len() < 1 {
            return Err(AppError::Validation(ValidationError::EmptyName));
        }
        if !validate_email(self.email.as_str()) {
            return Err(AppError::Validation(ValidationError::InvalidEmail));
        }
        if !(self.confirm_password == self.password) {
            return Err(AppError::Validation(ValidationError::PasswordMismatch));
        }
        Ok(())
    }
}

/// The body of a successful registration response.
pub struct RegisterUserResponse {
    /// A confirmation message.
    pub message: String,
}

/// The body of a successful verification response.
pub struct VerifyUserResponse {
    /// A confirmation message.
    pub message: String,
}

/// The body of a login request.
pub struct LoginUserRequest {
    /// The account email.
    pub email: String,
    /// The account password.
    pub password: String,
}

/// The body of a successful login response.
pub struct LoginUserResponse {
    /// The signed bearer token.
    pub token: String,
}

/// The body of a request to (re)send the verification email.
pub struct SendUserVerificationEmailRequest {
    /// The account email; must have the email shape.
    pub email: String,
}

impl SendUserVerificationEmailRequest {
    /// Checks the email shape.
    pub fn validate(&self) -> (r: Result<(), AppError>)
        ensures
            r == if is_valid_email(self.email@) {
                Ok::<(), AppError>(())
            } else {
                Err::<(), AppError>(AppError::Validation(ValidationError::InvalidEmail))
            },
    {
        if validate_email(self.email.as_str()) {
            Ok(())
        } else {
            Err(AppError::Validation(ValidationError::InvalidEmail))
        }
    }
}

/// The body of the response to a verification-email request.
pub struct SendUserVerificationEmailResponse {
    /// A confirmation message.
    pub message: String,
}

/// The body of a forgot-password request.
pub struct ForgotPasswordRequest {
    /// The account email; must have the email shape.
    pub email: String,
}

impl ForgotPasswordRequest {
    /// Checks the email shape.
    pub fn validate(&self) -> (r: Result<(), AppError>)
        ensures
            r == if is_valid_email(self.email@) {
                Ok::<(), AppError>(())
            } else {
                Err::<(), AppError>(AppError::Validation(ValidationError::InvalidEmail))
            },
    {
        if validate_email(self.email.as_str()) {
            Ok(())
        } else {
            Err(AppError::Validation(ValidationError::InvalidEmail))
        }
    }
}

/// The body of the response to a forgot-password request.
pub struct ForgotPasswordResponse {
    /// A confirmation message.
    pub message: String,
}

/// The body of a password-reset request.
pub struct ResetPasswordRequest {
    /// The new password.
    pub new_password: String,
    /// Must equal `new_password`.
    pub confirm_new_password: String,
}

impl ResetPasswordRequest {
    /// Checks that the confirmation matches the new password.
    pub fn validate(&self) -> (r: Result<(), AppError>)
        ensures
            match spec_validate_reset(self.new_password@, self.confirm_new_password@) {
                Ok(()) => r == Ok::<(), AppError>(()),
                Err(v) => r == Err::<(), AppError>(AppError::Validation(v)),
            },
    {
        if !(self.confirm_new_password == self.new_password) {
            return Err(AppError::Validation(ValidationError::PasswordMismatch));
        }
        Ok(())
    }
}

/// The body of the response to a password reset.
pub struct ResetPasswordResponse {
    /// A confirmation message.
    pub message: String,
}

/// An upload request, assembled from the multipart fields.
pub struct UploadFileRequest {
    /// The user-chosen file name; must not be empty.
    pub file_name: String,
    /// The authenticated owner.
    pub user_id: u64,
    /// The plaintext payload.
    pub file_data: Vec<u8>,
    /// The payload size in bytes; positive and at most ten megabytes.
    pub size: u64,
    /// The storage handle, set once the encrypted payload is stored.
    pub cid: String,
    /// The payload's MIME type.
    pub mime_type: String,
    /// The password that derives the encryption key.
    pub password: String,
    /// The expiry instant; must be strictly in the future.
    pub expires_at: i64,
    /// The download limit, between 1 and 10.
    pub max_downloads: u8,
}

/// The outcome of validating an upload request: a non-empty file name, a
/// size within bounds, an expiry in the future, and a download limit in
/// range, checked in that order.
pub open spec fn spec_validate_upload(
    file_name: Seq<char>,
    size: u64,
    expires_at: i64,
    max_downloads: u8,
    now: i64,
) -> Result<(), ValidationError> {
    if file_name.len() < 1 {
        Err(ValidationError::EmptyFileName)
    } else if size == 0 || size > UPLOAD_MAX_BYTES {
        Err(ValidationError::SizeOutOfRange)
    } else if expires_at <= now {
        Err(ValidationError::ExpiryNotInFuture)
    } else if max_downloads == 0 || max_downloads > 10 {
        Err(ValidationError::MaxDownloadsOutOfRange)
    } else {
        Ok(())
    }
}

fn validate_expires_at(expires_at: i64, now: i64) -> (r: Result<(), ValidationError>)
    ensures
        r == if expires_at <= now {
            Err::<(), ValidationError>(ValidationError::ExpiryNotInFuture)
        } else {
            Ok::<(), ValidationError>(())
        },
{
    if expires_at <= now {
        return Err(ValidationError::ExpiryNotInFuture);
    }
    Ok(())
}

impl UploadFileRequest {
    /// Checks the upload rules in declaration order against the current
    /// instant.
    pub fn validate(&self, now: i64) -> (r: Result<(), AppError>)
        ensures
            match spec_validate_upload(
                self.file_name@,
                self.size,
                self.expires_at,
                self.max_downloads,
                now,
            ) {
                Ok(()) => r == Ok::<(), AppError>(()),
                Err(v) => r == Err::<(), AppError>(AppError::Validation(v)),
            },
    {
        if self.file_name.as_str().unicode_len() < 1 {
            return Err(AppError::Validation(ValidationError::EmptyFileName));
        }
        if self.size == 0 || self.size > UPLOAD_MAX_BYTES {
            return Err(AppError::Validation(ValidationError::SizeOutOfRange));
        }
        if let Err(v) = validate_expires_at(self.expires_at, now) {
            return Err(AppError::Validation(v));
        }
        if self.max_downloads == 0 || self.max_downloads > 10 {
            return Err(AppError::Validation(ValidationError::MaxDownloadsOutOfRange));
        }
        Ok(())
    }
}

impl Default for UploadFileRequest {
    /// The empty request the multipart reader starts from.
    fn default() -> (r: UploadFileRequest)
        ensures
            r.file_name@ == Seq::<char>::empty(),
            r.user_id == 0,
            r.file_data@ == Seq::<u8>::empty(),
            r.size == 0,
            r.cid@ == "cid"@,
            r.mime_type@ == "mime_type"@,
            r.password@ == "default-password"@,
            r.expires_at == 0,
            r.max_downloads == 0,
    {
        UploadFileRequest {
            file_name: String::new(),
            user_id: 0,
            file_data: Vec::new(),
            size: 0,
            cid: String::from_str("cid"),
            mime_type: String::from_str("mime_type"),
            password: String::from_str("default-password"),
            expires_at: 0,
            max_downloads: 0,
        }
    }
}

/// The body of a successful upload response.
pub struct UploadFileResponse {
    /// The new file record's id.
    pub id: u64,
    /// A confirmation message.
    pub message: String,
}

/// The body of a download request.
pub struct DownloadFileRequest {
    /// The file record's id.
    pub file_id: u64,
    /// The decryption password; a fixed default is used when absent.
    pub password: Option<String>,
}

/// The files a user owns, as references into the store.
pub struct UserFilesResponse<'a> {
    /// The user's file records.
    pub files: Vec<&'a crate::file::FileCollection>,
}

} // verus!
