//! Password login and role-gated request authorization for a web service.
//!
//! The crate decides; the surrounding server reads requests, queries the user
//! store and writes responses. Password hashes are checked with Argon2 and
//! session tokens are HS256-signed claim sets.

mod clock;
pub mod config;
pub mod decimal;
pub mod error;
pub mod guard;
pub mod login;
pub mod password;
pub mod role;
pub mod token;
pub mod user;
