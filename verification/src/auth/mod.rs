//! Claims, tokens and the pairing of an identity token with an access token.

pub mod claims;
pub mod config;
pub mod errors;
pub mod hasher;
pub mod json;
pub mod jwt;
pub mod manager;
pub mod outside;
pub mod tokens;
