//! Process-wide configuration.
//!
//! Loaded once at startup from the environment by the surrounding program
//! and passed by reference to every component; nothing here is re-read
//! per request.

use vstd::prelude::*;

verus! {

/// The immutable configuration of the running service.
pub struct AppConfig {
    /// The address the server binds and advertises in links.
    pub server_url: String,
    /// The connection string of the backing document store.
    pub mongodb_url: String,
    /// The credential for the outbound-mail service.
    pub sendgrid_api_key: String,
    /// The sender name on outbound mail.
    pub sendgrid_sender_name: String,
    /// The sender address on outbound mail.
    pub sendgrid_sender_email: String,
    /// The secret that signs and verifies bearer tokens.
    pub jwt_secret_key: String,
    /// The remote-storage account name.
    pub cloudinary_cloud_name: String,
    /// The remote-storage credential.
    pub cloudinary_api_key: String,
    /// The remote-storage signing secret.
    pub cloudinary_api_secret: String,
}

} // verus!
