use fileshare::cloud::{delete_signature, extract_public_id, upload_signature};
use fileshare::email::EmailInfo;
use fileshare::token::TokenType;
use sha1::{Digest, Sha1};

#[test]
fn public_id_is_the_segment_after_the_last_slash() {
    assert_eq!(
        extract_public_id("https://res.example.com/raw/upload/v1/abc123.bin"),
        "abc123.bin"
    );
    assert_eq!(extract_public_id("no-slash-here"), "no-slash-here");
    assert_eq!(extract_public_id("trailing/"), "");
    assert_eq!(extract_public_id(""), "");
}

#[test]
fn upload_signature_matches_manual_computation() {
    let expected = hex::encode(Sha1::digest(b"timestamp=1700000000apisecret"));
    assert_eq!(upload_signature("1700000000", "apisecret"), expected);
}

#[test]
fn delete_signature_orders_parameters_alphabetically() {
    let expected =
        hex::encode(Sha1::digest(b"public_id=abc123.bin&timestamp=1700000000apisecret"));
    assert_eq!(delete_signature("abc123.bin", "1700000000", "apisecret"), expected);
}

#[test]
fn verification_template_wraps_the_link() {
    let info = EmailInfo {
        recipient_email: "u@x.com",
        verification_link: "host/user/verify?token=t&user=1",
        email_type: TokenType::EmailVerification,
    };
    let (subject, body) = info.email_verification_template();
    assert_eq!(subject, "Please verify your email");
    assert_eq!(
        body,
        "<div>Please verify your account: <a href=\"http://host/user/verify?token=t&user=1\" \
         target=\"_blank\">Verify account</a></div>"
    );
}

#[test]
fn reset_template_wraps_the_link() {
    let info = EmailInfo {
        recipient_email: "u@x.com",
        verification_link: "host/user/reset-password?token=t&user=1",
        email_type: TokenType::ForgotPassword,
    };
    let (subject, body) = info.forgot_password_template();
    assert_eq!(subject, "Reset your password");
    assert_eq!(
        body,
        "<div>Reset your password here: <a href=\"http://host/user/reset-password?token=t&user=1\" \
         target=\"_blank\">Reset password</a></div>"
    );
}

#[test]
fn templates_dispatch_on_purpose() {
    let verify = EmailInfo {
        recipient_email: "u@x.com",
        verification_link: "l",
        email_type: TokenType::EmailVerification,
    };
    assert_eq!(verify.templates().0, "Please verify your email");
    let reset = EmailInfo {
        recipient_email: "u@x.com",
        verification_link: "l",
        email_type: TokenType::ForgotPassword,
    };
    assert_eq!(reset.templates().0, "Reset your password");
}
