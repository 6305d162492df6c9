//! What a logon takes and gives, and the user that it is about.

use vstd::prelude::*;

use crate::auth::claims::{IdClaims, IdClaimsView};
use crate::auth::tokens::TokenPair;

verus! {

/// The answer to a logon: the two signed tokens.
#[derive(Debug, PartialEq, Eq)]
pub struct TokenResponse {
    pub access_token: String,
    pub id_token: String,
}

impl TokenResponse {
    /// The answer that hands out the signed texts of a pair.
    pub fn from_token_pair(pair: TokenPair) -> (response: TokenResponse)
        ensures
            response.access_token == pair.access_token.raw,
            response.id_token == pair.id_token.raw,
    {
        TokenResponse { access_token: pair.access_token.raw, id_token: pair.id_token.raw }
    }
}

/// What somebody sends to log on.
#[derive(Debug, PartialEq, Eq)]
pub struct LogonRequest {
    pub username: String,
    pub password: String,
}

/// A user as the service knows them.
pub struct User {
    pub id: String,
    pub name: String,
    pub email: String,
    pub hashpassword: String,
    pub salt: String,
}

impl User {
    /// What an identity token says of the user, before any hash is in it.
    pub fn to_id_claims(&self) -> (claims: IdClaims)
        ensures
            claims@ == (IdClaimsView {
                id: self.id@,
                name: self.name@,
                email: self.email@,
                at_hash: None,
            }),
    {
        IdClaims {
            name: self.name.clone(),
            email: self.email.clone(),
            id: self.id.clone(),
            at_hash: None,
        }
    }
}

} // verus!
