//! Paired identity and access tokens.
//!
//! An access token is signed first; a hash of its signed text is then placed in
//! the identity token, so that the two can later be shown to belong together.

pub mod auth;
pub mod models;
pub mod password;
