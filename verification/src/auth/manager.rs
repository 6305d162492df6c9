//! Issuing pairs of tokens for one issuer and one audience.

use vstd::prelude::*;

use crate::auth::claims::{
    duration_since_epoch, AccessClaims, AccessClaimsView, IdClaims, JwtClaim, JwtClaimView,
};
use crate::auth::errors::{ErrorKind, Result};
use crate::auth::jwt::{Header, HeaderView};
use crate::auth::tokens::{TokenPair, DEPLOYED_ALGORITHM};

verus! {

/// For how many minutes a pair of tokens is valid.
pub const TOKEN_LIFETIME_MINUTES: u64 = 60;

/// The length of a session id: 32 hexadecimal digits and four hyphens.
pub const SESSION_ID_LENGTH: usize = 36;

/// Sixty seconds for each minute.
fn minutes_in_seconds(minutes: u64) -> (seconds: u64)
    requires
        minutes * 60 <= u64::MAX,
    ensures
        seconds == minutes * 60,
{
    minutes * 60
}

/// Whether a character is a digit or one of the letters `a` to `f`.
pub open spec fn is_lower_hex(c: char) -> bool {
    ('0' <= c && c <= '9') || ('a' <= c && c <= 'f')
}

/// Whether a text has the form of a session id: 36 characters, of which the
/// ninth, fourteenth, nineteenth and twenty-fourth are hyphens and the others
/// hexadecimal digits in lower case.
pub open spec fn is_session_id(text: Seq<char>) -> bool {
    &&& text.len() == SESSION_ID_LENGTH
    &&& forall|i: int|
        0 <= i < text.len() ==> if i == 8 || i == 13 || i == 18 || i == 23 {
            #[trigger] text[i] == '-'
        } else {
            is_lower_hex(text[i])
        }
}

/// `uuid::Uuid::new_v4` as text: a random session id, in the hyphenated
/// lower-case form in which a `Uuid` displays. Nothing is claimed of which
/// digits it has.
#[verifier::external_body]
fn new_session_id() -> (session_id: String)
    ensures
        is_session_id(session_id@),
{
    uuid::Uuid::new_v4().to_string()
}

/// Issues pairs of tokens under one key, for one issuer and one audience.
#[derive(Clone)]
pub struct TokenManager {
    pub encoding_key: jsonwebtoken::EncodingKey,
    pub issuer: String,
    pub audience: String,
}

impl TokenManager {
    /// The header of every token that the manager issues.
    pub open spec fn header() -> HeaderView {
        HeaderView { alg: DEPLOYED_ALGORITHM, kid: None }
    }

    /// The claims of a pair issued at `now`: the manager's audience and issuer,
    /// `now` as the time of issue, and an expiry one lifetime later.
    pub open spec fn claims_at(&self, now: u64) -> JwtClaimView {
        JwtClaimView::empty().with_audience(self.audience@).with_issuer(self.issuer@).issued_at(
            now,
        ).expires_at(now, (TOKEN_LIFETIME_MINUTES * 60) as u64)
    }

    /// The claims of a pair issued at `now` name the manager's issuer and
    /// audience, `now` as the time of issue, and an expiry 3600 seconds later
    /// (or the last moment that a `u64` holds, where that is sooner), and
    /// nothing else.
    pub proof fn lemma_claims_at(&self, now: u64)
        ensures
            self.claims_at(now) == (JwtClaimView {
                iss: Some(self.issuer@),
                sub: None,
                aud: Some(self.audience@),
                exp: Some(JwtClaimView::expiry(now, 3600)),
                nbf: None,
                iat: Some(now),
                jti: None,
            }),
            now + 3600 <= u64::MAX ==> self.claims_at(now).exp == Some((now + 3600) as u64),
    {
    }

    /// The claims of a pair issued at `issued` hold at every moment up to and
    /// at the expiry, 3600 seconds later, and at none after it.
    pub proof fn lemma_claims_hold_for_a_lifetime(&self, issued: u64, now: u64)
        ensures
            self.claims_at(issued).in_time(now) <==> now <= JwtClaimView::expiry(issued, 3600),
    {
    }

    /// Issues a pair for somebody at the moment `now`, counted in seconds from
    /// the epoch, with the given session id.
    pub fn create_token_pair_at(&self, id_claims: IdClaims, session_id: String, now: u64) -> (pair:
        Result<TokenPair>)
        ensures
            match pair {
                Ok(p) => p@.issued_from(
                    Self::header(),
                    self.claims_at(now),
                    id_claims@,
                    AccessClaimsView { session_id: session_id@ },
                ) && p@.well_formed(),
                Err(e) => e.kind == ErrorKind::Serialization || e.kind == ErrorKind::Signing
                    || e.kind == ErrorKind::Encoding,
            },
    {
        let header = Header::new(DEPLOYED_ALGORITHM);
        let common_claims = JwtClaim::empty().with_audience(self.audience.clone()).with_issuer(
            self.issuer.clone(),
        ).issued_at(now).expires_at(now, minutes_in_seconds(TOKEN_LIFETIME_MINUTES));
        let access_claims = AccessClaims { session_id };
        TokenPair::create(&self.encoding_key, &header, common_claims, id_claims, access_claims)
    }

    /// Issues a pair for somebody now, with a fresh session id. The clock is
    /// read once.
    pub fn create_token_pair(&self, id_claims: IdClaims) -> (pair: Result<TokenPair>)
        ensures
            match pair {
                Ok(p) => p@.well_formed() && is_session_id(p@.access_token.content.session_id)
                    && exists|now: u64|
                    #[trigger] p@.issued_from(
                        Self::header(),
                        self.claims_at(now),
                        id_claims@,
                        p@.access_token.content,
                    ),
                Err(e) => e.kind == ErrorKind::Serialization || e.kind == ErrorKind::Signing
                    || e.kind == ErrorKind::Encoding,
            },
    {
        let now = duration_since_epoch();
        let session_id = new_session_id();
        self.create_token_pair_at(id_claims, session_id, now)
    }
}

} // verus!
