//! Credential issuance and verification for a small web service: password
//! strength, per-user secrets, and the registration and login flows as state
//! machines that a server drives.

pub mod auth;
pub mod error;
pub mod power;
pub mod user;
pub mod secret;
pub mod register;
pub mod login;
pub mod init;
