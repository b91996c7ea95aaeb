//! Closed error taxonomy of the service.
//!
//! Every fallible operation returns one of these variants; handlers map a
//! variant to an HTTP status code and a `{kind, message}` body.  Each
//! variant is a structured kind, never a free-form string, so callers can
//! branch on it.

use vstd::prelude::*;

verus! {

/// Rejections of malformed or out-of-range input.
#[derive(Clone, Copy, Debug, PartialEq, Eq, Structural)]
pub enum ValidationError {
    /// A user name was empty.
    EmptyName,
    /// An email address did not have a valid form.
    InvalidEmail,
    /// A password and its confirmation differed.
    PasswordMismatch,
    /// An uploaded file had an empty name.
    EmptyFileName,
    /// An uploaded file was empty or larger than the size cap.
    SizeOutOfRange,
    /// A download limit was outside the allowed range of one to ten.
    MaxDownloadsOutOfRange,
    /// An expiry instant was not strictly in the future.
    ExpiryNotInFuture,
}

/// Business-rule violations.
#[derive(Clone, Copy, Debug, PartialEq, Eq, Structural)]
pub enum BadRequestError {
    /// No user exists for the given email or id.
    NoSuchUser,
    /// A user with the given email is already registered.
    DuplicateEmail,
    /// The user's email is already verified.
    AlreadyVerified,
    /// The user's email is not verified yet.
    NotVerified,
    /// The supplied login password did not match.
    WrongPassword,
    /// No live token exists for the user and purpose.
    NoSuchToken,
    /// The token's expiry instant has passed.
    TokenExpired,
    /// The supplied token value did not match the stored hash.
    InvalidToken,
    /// A token for the same user and purpose was issued too recently.
    CooldownActive,
    /// No file record exists for the given id.
    NoSuchFile,
    /// The file's expiry instant has passed.
    FileExpired,
    /// The file's download limit has been reached.
    QuotaExceeded,
}

/// Failures of the encryption pipeline.
#[derive(Clone, Copy, Debug, PartialEq, Eq, Structural)]
pub enum CryptoError {
    /// An encrypted blob was shorter than the fixed salt-and-nonce header.
    TruncatedInput,
    /// The key-derivation function failed to produce a key.
    KeyDerivation,
    /// The cipher rejected the plaintext.
    EncryptFailure,
    /// Authentication of the ciphertext failed: a wrong password or a
    /// tampered blob.
    DecryptFailure,
    /// The system's randomness source failed.
    RandomSource,
}

/// Failures of the one-way secret hasher.
#[derive(Clone, Copy, Debug, PartialEq, Eq, Structural)]
pub enum HashingError {
    /// A stored digest string could not be parsed.
    MalformedDigest,
    /// The hash function failed to produce a digest.
    HashFailure,
}

/// Rejections of a bearer credential.
#[derive(Clone, Copy, Debug, PartialEq, Eq, Structural)]
pub enum AuthError {
    /// The bearer token was absent, malformed, or its signature did not
    /// verify.
    InvalidBearer,
    /// The bearer token's expiry instant has passed.
    ExpiredBearer,
}

/// The error type every handler returns.
#[derive(Clone, Copy, Debug, PartialEq, Eq, Structural)]
pub enum AppError {
    /// Malformed or out-of-range input.
    Validation(ValidationError),
    /// A business-rule violation.
    BadRequest(BadRequestError),
    /// A missing, invalid, or expired bearer credential.
    Unauthorized(AuthError),
    /// A failure inside the encryption pipeline.
    Crypto(CryptoError),
    /// A failure inside the secret hasher.
    Hashing(HashingError),
    /// A backing-store failure.
    Database,
    /// A remote-storage failure.
    Storage,
}

impl ValidationError {
    /// The human-readable message of the violated rule.
    pub open spec fn spec_message(&self) -> Seq<char> {
        match self {
            ValidationError::EmptyName => "Name cannot be empty"@,
            ValidationError::InvalidEmail => "Invalid email"@,
            ValidationError::PasswordMismatch => "Passwords do not match"@,
            ValidationError::EmptyFileName => "Name cannot be empty"@,
            ValidationError::SizeOutOfRange => "size should be less than 10 MB"@,
            ValidationError::MaxDownloadsOutOfRange => "expected between 1 to 10"@,
            ValidationError::ExpiryNotInFuture => "`expires_at` must be in future"@,
        }
    }

    /// The human-readable message of the violated rule.
    pub fn message(&self) -> (r: String)
        ensures
            r@ == self.spec_message(),
    {
        match self {
            ValidationError::EmptyName => String::from_str("Name cannot be empty"),
            ValidationError::InvalidEmail => String::from_str("Invalid email"),
            ValidationError::PasswordMismatch => String::from_str("Passwords do not match"),
            ValidationError::EmptyFileName => String::from_str("Name cannot be empty"),
            ValidationError::SizeOutOfRange => String::from_str("size should be less than 10 MB"),
            ValidationError::MaxDownloadsOutOfRange => String::from_str("expected between 1 to 10"),
            ValidationError::ExpiryNotInFuture => String::from_str("`expires_at` must be in future"),
        }
    }
}

impl BadRequestError {
    /// The human-readable message of the violated rule.
    pub open spec fn spec_message(&self) -> Seq<char> {
        match self {
            BadRequestError::NoSuchUser => "No such user exists!"@,
            BadRequestError::DuplicateEmail => "Email already registered!"@,
            BadRequestError::AlreadyVerified => "User already verified!"@,
            BadRequestError::NotVerified => "Your account is not verified yet!"@,
            BadRequestError::WrongPassword => "Wrong Password!"@,
            BadRequestError::NoSuchToken => "No token exists for given user!"@,
            BadRequestError::TokenExpired => "Token expired!"@,
            BadRequestError::InvalidToken => "Invalid token provided!"@,
            BadRequestError::CooldownActive => "Next request can be made after 5 minutes only"@,
            BadRequestError::NoSuchFile => "No such file exists!"@,
            BadRequestError::FileExpired => "File has already expired."@,
            BadRequestError::QuotaExceeded => "File has reached its maximum download limit."@,
        }
    }

    /// The human-readable message of the violated rule.
    pub fn message(&self) -> (r: String)
        ensures
            r@ == self.spec_message(),
    {
        match self {
            BadRequestError::NoSuchUser => String::from_str("No such user exists!"),
            BadRequestError::DuplicateEmail => String::from_str("Email already registered!"),
            BadRequestError::AlreadyVerified => String::from_str("User already verified!"),
            BadRequestError::NotVerified => String::from_str("Your account is not verified yet!"),
            BadRequestError::WrongPassword => String::from_str("Wrong Password!"),
            BadRequestError::NoSuchToken => String::from_str("No token exists for given user!"),
            BadRequestError::TokenExpired => String::from_str("Token expired!"),
            BadRequestError::InvalidToken => String::from_str("Invalid token provided!"),
            BadRequestError::CooldownActive => String::from_str(
                "Next request can be made after 5 minutes only",
            ),
            BadRequestError::NoSuchFile => String::from_str("No such file exists!"),
            BadRequestError::FileExpired => String::from_str("File has already expired."),
            BadRequestError::QuotaExceeded => String::from_str(
                "File has reached its maximum download limit.",
            ),
        }
    }
}

impl AppError {
    /// The HTTP status code a handler answers with for this error.
    pub fn status_code(&self) -> (code: u16)
        ensures
            code == self.spec_status_code(),
    {
        match self {
            AppError::Validation(_) => 400,
            AppError::BadRequest(_) => 400,
            AppError::Unauthorized(_) => 401,
            AppError::Crypto(_) => 500,
            AppError::Hashing(_) => 500,
            AppError::Database => 500,
            AppError::Storage => 500,
        }
    }

    /// The status code as a spec-level function of the variant.
    pub open spec fn spec_status_code(&self) -> u16 {
        match self {
            AppError::Validation(_) => 400u16,
            AppError::BadRequest(_) => 400u16,
            AppError::Unauthorized(_) => 401u16,
            AppError::Crypto(_) => 500u16,
            AppError::Hashing(_) => 500u16,
            AppError::Database => 500u16,
            AppError::Storage => 500u16,
        }
    }

    /// The error-kind label of the response body.
    pub fn kind(&self) -> (kind: String)
        ensures
            kind@ == self.spec_kind(),
    {
        match self {
            AppError::Validation(_) => String::from_str("Validation"),
            AppError::BadRequest(_) => String::from_str("BadRequest"),
            AppError::Unauthorized(_) => String::from_str("Unauthorized"),
            AppError::Crypto(_) => String::from_str("Crypto"),
            AppError::Hashing(_) => String::from_str("Hashing"),
            AppError::Database => String::from_str("Database"),
            AppError::Storage => String::from_str("Storage"),
        }
    }

    /// The error-kind label as a spec-level function of the variant.
    pub open spec fn spec_kind(&self) -> Seq<char> {
        match self {
            AppError::Validation(_) => "Validation"@,
            AppError::BadRequest(_) => "BadRequest"@,
            AppError::Unauthorized(_) => "Unauthorized"@,
            AppError::Crypto(_) => "Crypto"@,
            AppError::Hashing(_) => "Hashing"@,
            AppError::Database => "Database"@,
            AppError::Storage => "Storage"@,
        }
    }

    /// The human-readable message of the response body.
    pub open spec fn spec_message(&self) -> Seq<char> {
        match self {
            AppError::Validation(v) => v.spec_message(),
            AppError::BadRequest(b) => b.spec_message(),
            AppError::Unauthorized(AuthError::InvalidBearer) => "Invalid token"@,
            AppError::Unauthorized(AuthError::ExpiredBearer) => "Token expired"@,
            AppError::Crypto(CryptoError::TruncatedInput) => "Encrypted input is truncated"@,
            AppError::Crypto(CryptoError::KeyDerivation) => "Error hashing key"@,
            AppError::Crypto(CryptoError::EncryptFailure) => "Error in encrypting file"@,
            AppError::Crypto(CryptoError::DecryptFailure) => "Can not decrypt file"@,
            AppError::Crypto(CryptoError::RandomSource) => "Error in generating random bytes"@,
            AppError::Hashing(HashingError::MalformedDigest) => "Error in parsing hash"@,
            AppError::Hashing(HashingError::HashFailure) => "Error in hashing secret"@,
            AppError::Database => "Database error"@,
            AppError::Storage => "Storage error"@,
        }
    }

    /// The human-readable message of the response body.
    pub fn message(&self) -> (r: String)
        ensures
            r@ == self.spec_message(),
    {
        match self {
            AppError::Validation(v) => v.message(),
            AppError::BadRequest(b) => b.message(),
            AppError::Unauthorized(AuthError::InvalidBearer) => String::from_str("Invalid token"),
            AppError::Unauthorized(AuthError::ExpiredBearer) => String::from_str("Token expired"),
            AppError::Crypto(CryptoError::TruncatedInput) => String::from_str(
                "Encrypted input is truncated",
            ),
            AppError::Crypto(CryptoError::KeyDerivation) => String::from_str("Error hashing key"),
            AppError::Crypto(CryptoError::EncryptFailure) => String::from_str(
                "Error in encrypting file",
            ),
            AppError::Crypto(CryptoError::DecryptFailure) => String::from_str(
                "Can not decrypt file",
            ),
            AppError::Crypto(CryptoError::RandomSource) => String::from_str(
                "Error in generating random bytes",
            ),
            AppError::Hashing(HashingError::MalformedDigest) => String::from_str(
                "Error in parsing hash",
            ),
            AppError::Hashing(HashingError::HashFailure) => String::from_str(
                "Error in hashing secret",
            ),
            AppError::Database => String::from_str("Database error"),
            AppError::Storage => String::from_str("Storage error"),
        }
    }
}

} // verus!
