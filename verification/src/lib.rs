//! A password-protected, self-expiring file-sharing core.
//!
//! Users register and verify their email, upload files that are encrypted
//! with a password before they leave the process, and recipients download
//! and decrypt them while an expiry sweep reclaims stale content.  The
//! modules here hold the decision logic of that service: the
//! password-derived encryption pipeline, the single-use token lifecycle,
//! the file-record lifecycle with its download quota, the expiry sweep,
//! and the stateless bearer-token codec.  I/O (HTTP, mail, remote storage)
//! stays outside; these functions take plain values and the current time as
//! arguments and are verified for every value of them.

pub mod cipher;
pub mod cloud;
pub mod collector;
pub mod config;
pub mod email;
pub mod dtos;
pub mod error;
pub mod file;
pub mod handler_file;
pub mod handler_user;
pub mod hashing;
pub mod jwt;
pub mod token;
pub mod user;
