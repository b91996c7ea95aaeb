//! Outbound-mail content for token links.
//!
//! The mail itself is sent by the surrounding program through the mail
//! service; this module only builds the subject and the HTML body around
//! the verification or reset link, so the content is pinned down exactly.

use vstd::prelude::*;

use crate::token::TokenType;

verus! {

/// What an outbound token mail needs: the recipient, the link that
/// carries the cleartext token, and the purpose.
pub struct EmailInfo<'a> {
    /// The recipient's address.
    pub recipient_email: &'a str,
    /// The link embedding the cleartext token and the user id.
    pub verification_link: &'a str,
    /// The purpose the token is bound to.
    pub email_type: TokenType,
}

impl EmailInfo<'_> {
    /// The subject and HTML body of the email-verification mail: the body
    /// wraps the link in an anchor.
    pub fn email_verification_template(&self) -> (r: (String, String))
        ensures
            r.0@ == "Please verify your email"@,
            r.1@ == "<div>Please verify your account: <a href=\"http://"@
                + self.verification_link@ + "\" target=\"_blank\">Verify account</a></div>"@,
    {
        let subject = String::from_str("Please verify your email");
        let mut content = String::from_str("<div>Please verify your account: <a href=\"http://");
        content.append(self.verification_link);
        content.append("\" target=\"_blank\">Verify account</a></div>");
        (subject, content)
    }

    /// The subject and HTML body of the password-reset mail: the body
    /// wraps the link in an anchor.
    pub fn forgot_password_template(&self) -> (r: (String, String))
        ensures
            r.0@ == "Reset your password"@,
            r.1@ == "<div>Reset your password here: <a href=\"http://"@ + self.verification_link@
                + "\" target=\"_blank\">Reset password</a></div>"@,
    {
        let subject = String::from_str("Reset your password");
        let mut content = String::from_str("<div>Reset your password here: <a href=\"http://");
        content.append(self.verification_link);
        content.append("\" target=\"_blank\">Reset password</a></div>");
        (subject, content)
    }

    /// The subject and body that fit this mail's purpose.
    pub fn templates(&self) -> (r: (String, String))
        ensures
            self.email_type == TokenType::EmailVerification ==> r.0@
                == "Please verify your email"@,
            self.email_type == TokenType::ForgotPassword ==> r.0@ == "Reset your password"@,
    {
        match self.email_type {
            TokenType::EmailVerification => self.email_verification_template(),
            TokenType::ForgotPassword => self.forgot_password_template(),
        }
    }
}

} // verus!
