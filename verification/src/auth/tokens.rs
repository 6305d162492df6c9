//! Identity and access tokens, and the pair that binds one to the other.

use vstd::prelude::*;

use crate::auth::claims::{
    duration_since_epoch, lemma_field_names, malformed, merged_entries, time_bounds_hold,
    AccessClaims, AccessClaimsView, IdClaims, IdClaimsView, JwtClaim, JwtClaimView,
};
use crate::auth::errors::{Error, ErrorKind, ErrorView, Result};
use crate::auth::hasher::{access_token_hash, binding_hash, hashable, too_long, HASH_LENGTH};
use crate::auth::json::{json_entries, JsonObject, JsonScalar};
use crate::auth::jwt::{
    create_token, decode_token, lemma_algorithm_names_differ, token_header, token_payload,
    Algorithm, Header, HeaderView,
};

verus! {

/// The algorithm under which the tokens of a deployment are signed, and the
/// only one that `TokenPair::verify` accepts.
pub const DEPLOYED_ALGORITHM: Algorithm = Algorithm::RS256;

/// Whether none of the seven registered claim names is a key of `entries`.
pub open spec fn holds_no_registered_name(entries: Map<Seq<char>, JsonScalar>) -> bool {
    &&& !entries.dom().contains("iss"@)
    &&& !entries.dom().contains("sub"@)
    &&& !entries.dom().contains("aud"@)
    &&& !entries.dom().contains("exp"@)
    &&& !entries.dom().contains("nbf"@)
    &&& !entries.dom().contains("iat"@)
    &&& !entries.dom().contains("jti"@)
}

/// Registered claims are read back as they were written, whatever content
/// stands beside them, as long as the content uses none of their names.
pub proof fn lemma_claims_read_back(claims: JwtClaimView, content: Map<Seq<char>, JsonScalar>)
    requires
        holds_no_registered_name(content),
    ensures
        JwtClaimView::parse(merged_entries(claims.entries(), content)) == Some(claims),
{
    lemma_field_names();
}

/// The content of an identity token is read back as it was written, whatever
/// registered claims stand beside it, and uses none of their names.
pub proof fn lemma_id_claims_read_back(claims: JwtClaimView, content: IdClaimsView)
    ensures
        holds_no_registered_name(content.entries()),
        IdClaimsView::parse(merged_entries(claims.entries(), content.entries())) == Some(content),
        AccessClaimsView::parse(merged_entries(claims.entries(), content.entries())) is None,
{
    lemma_field_names();
}

/// The content of an access token is read back as it was written, whatever
/// registered claims stand beside it, and uses none of their names.
pub proof fn lemma_access_claims_read_back(claims: JwtClaimView, content: AccessClaimsView)
    ensures
        holds_no_registered_name(content.entries()),
        AccessClaimsView::parse(merged_entries(claims.entries(), content.entries())) == Some(
            content,
        ),
        IdClaimsView::parse(merged_entries(claims.entries(), content.entries())) is None,
{
    lemma_field_names();
}

/// A document of claims and content has a registered name exactly where that
/// claim is present, whatever the content, as long as the content uses none of
/// those names; and under a registered name it never holds `null`.
pub proof fn lemma_document_names_the_present_claims(
    claims: JwtClaimView,
    content: Map<Seq<char>, JsonScalar>,
)
    requires
        holds_no_registered_name(content),
    ensures
        merged_entries(claims.entries(), content).dom().contains("iss"@) <==> claims.iss is Some,
        merged_entries(claims.entries(), content).dom().contains("sub"@) <==> claims.sub is Some,
        merged_entries(claims.entries(), content).dom().contains("aud"@) <==> claims.aud is Some,
        merged_entries(claims.entries(), content).dom().contains("exp"@) <==> claims.exp is Some,
        merged_entries(claims.entries(), content).dom().contains("nbf"@) <==> claims.nbf is Some,
        merged_entries(claims.entries(), content).dom().contains("iat"@) <==> claims.iat is Some,
        merged_entries(claims.entries(), content).dom().contains("jti"@) <==> claims.jti is Some,
        claims.iss is Some ==> merged_entries(claims.entries(), content)["iss"@]
            == JsonScalar::Text(claims.iss.unwrap()),
        claims.sub is Some ==> merged_entries(claims.entries(), content)["sub"@]
            == JsonScalar::Text(claims.sub.unwrap()),
        claims.aud is Some ==> merged_entries(claims.entries(), content)["aud"@]
            == JsonScalar::Text(claims.aud.unwrap()),
        claims.exp is Some ==> merged_entries(claims.entries(), content)["exp"@]
            == JsonScalar::Number(claims.exp.unwrap()),
        claims.nbf is Some ==> merged_entries(claims.entries(), content)["nbf"@]
            == JsonScalar::Number(claims.nbf.unwrap()),
        claims.iat is Some ==> merged_entries(claims.entries(), content)["iat"@]
            == JsonScalar::Number(claims.iat.unwrap()),
        claims.jti is Some ==> merged_entries(claims.entries(), content)["jti"@]
            == JsonScalar::Text(claims.jti.unwrap()),
{
    lemma_field_names();
}

/// The error for a token that is past its expiry or ahead of its time.
pub open spec fn out_of_time() -> ErrorView {
    ErrorView {
        kind: ErrorKind::ExpiredOrNotYetValid,
        message: "token is past its expiry or ahead of its time"@,
    }
}

/// Holds claims to the moment `now`: they pass where their time bounds hold,
/// and are turned away where one does not.
pub fn check_time_bounds(claims: &JwtClaim, now: u64) -> (checked: Result<()>)
    ensures
        match checked {
            Ok(_) => claims@.in_time(now),
            Err(e) => !claims@.in_time(now) && e@ == out_of_time(),
        },
{
    if time_bounds_hold(claims, now) {
        Ok(())
    } else {
        Err(
            Error::new(
                ErrorKind::ExpiredOrNotYetValid,
                "token is past its expiry or ahead of its time",
            ),
        )
    }
}

/// What holds of an error with which one signed text is turned away at `now`,
/// where `fits` says whether the text reads as the kind of token asked for. It
/// is one of three kinds, and it is the error of a token out of its time only
/// for a text that reads as such a token and whose claims do not hold at
/// `now`.
pub open spec fn single_refusal_fits(error: ErrorView, raw: Seq<char>, fits: bool, now: u64) -> bool {
    match error.kind {
        ErrorKind::SignatureInvalid | ErrorKind::Malformed => true,
        ErrorKind::ExpiredOrNotYetValid => {
            &&& error == out_of_time()
            &&& fits
            &&& !JwtClaimView::parse(token_payload(raw)).unwrap().in_time(now)
        },
        _ => false,
    }
}

/// A signed identity token with what it holds.
#[derive(Debug, PartialEq, Eq)]
pub struct IdToken {
    pub header: Header,
    pub claims: JwtClaim,
    pub content: IdClaims,
    pub raw: String,
}

/// An `IdToken` as contracts see it.
pub struct IdTokenView {
    pub header: HeaderView,
    pub claims: JwtClaimView,
    pub content: IdClaimsView,
    pub raw: Seq<char>,
}

impl IdTokenView {
    /// The signed text names the header and carries exactly the claims and the
    /// content: the state of a token that was just issued.
    pub open spec fn issued(self) -> bool {
        &&& token_header(self.raw) == self.header.as_written()
        &&& token_payload(self.raw) == merged_entries(
            self.claims.entries(),
            self.content.entries(),
        )
    }

    /// Header, claims and content are what the signed text reads as: the
    /// state of every token, issued or read.
    pub open spec fn reads_back(self) -> bool {
        &&& token_header(self.raw) == self.header.as_written()
        &&& JwtClaimView::parse(token_payload(self.raw)) == Some(self.claims)
        &&& IdClaimsView::parse(token_payload(self.raw)) == Some(self.content)
    }

    /// Whether a signed text reads as an identity token at all.
    pub open spec fn fits(raw: Seq<char>) -> bool {
        JwtClaimView::parse(token_payload(raw)) is Some && IdClaimsView::parse(
            token_payload(raw),
        ) is Some
    }
}

impl View for IdToken {
    type V = IdTokenView;

    open spec fn view(&self) -> IdTokenView {
        IdTokenView {
            header: self.header@,
            claims: self.claims@,
            content: self.content@,
            raw: self.raw@,
        }
    }
}

impl IdToken {
    /// Signs an identity token over the claims and the content.
    pub fn create(
        encoding_key: &jsonwebtoken::EncodingKey,
        header: &Header,
        common_claims: JwtClaim,
        id_claims: IdClaims,
    ) -> (token: Result<IdToken>)
        ensures
            match token {
                Ok(t) => t.header == *header && t.claims == common_claims && t.content == id_claims
                    && t@.issued() && t@.reads_back(),
                Err(e) => e.kind == ErrorKind::Serialization || e.kind == ErrorKind::Signing,
            },
    {
        let raw = create_token(
            encoding_key,
            header,
            common_claims.clone(),
            id_claims.to_json_object(),
        )?;
        proof {
            lemma_id_claims_read_back(common_claims@, id_claims@);
            lemma_claims_read_back(common_claims@, id_claims@.entries());
        }
        Ok(IdToken { header: header.clone(), claims: common_claims, content: id_claims, raw })
    }

    /// Makes a token of a header, the document that a signed text was found to
    /// carry, and that text. The document has to hold registered claims and the
    /// content of an identity token, each field of the right kind; what else it
    /// holds is passed over.
    pub fn from_document(header: Header, document: &JsonObject, raw: String) -> (token: Result<
        IdToken,
    >)
        ensures
            match token {
                Ok(t) => t.header == header && t.raw == raw && JwtClaimView::parse(
                    json_entries(*document),
                ) == Some(t@.claims) && IdClaimsView::parse(json_entries(*document)) == Some(
                    t@.content,
                ),
                Err(e) => if JwtClaimView::parse(json_entries(*document)) is None {
                    e@ == malformed("registered claims do not fit"@)
                } else {
                    IdClaimsView::parse(json_entries(*document)) is None && e@ == malformed(
                        "identity token content does not fit"@,
                    )
                },
            },
    {
        let claims = JwtClaim::from_json_object(document)?;
        let content = IdClaims::from_json_object(document)?;
        Ok(IdToken { header, claims, content, raw })
    }

    /// What holds of the answer on one signed text at `now`: a token whose
    /// claims hold at `now`, or a refusal that fits.
    pub open spec fn verdict_fits(token: Result<IdToken>, raw: Seq<char>, now: u64) -> bool {
        match token {
            Ok(t) => t@.claims.in_time(now),
            Err(e) => single_refusal_fits(e@, raw, IdTokenView::fits(raw), now),
        }
    }

    /// Checks the signature of a signed text under the one algorithm that is
    /// expected, reads it as an identity token, and holds its claims to the moment
    /// `now`, counted in seconds from the epoch. A text that does not read as
    /// one, or whose claims do not hold at `now`, is never accepted.
    pub fn decode_at(
        decoding_key: &jsonwebtoken::DecodingKey,
        algorithm: Algorithm,
        raw: &str,
        now: u64,
    ) -> (token: Result<IdToken>)
        ensures
            IdToken::verdict_fits(token, raw@, now),
            token is Ok ==> token.unwrap()@.raw == raw@ && token.unwrap().header.alg == algorithm
                && token.unwrap()@.reads_back(),
            !IdTokenView::fits(raw@) ==> token is Err,
            IdTokenView::fits(raw@) && !JwtClaimView::parse(token_payload(raw@)).unwrap().in_time(
                now,
            ) ==> token is Err,
    {
        let (header, document) = decode_token(decoding_key, algorithm, raw)?;
        let token = IdToken::from_document(header, &document, raw.to_owned())?;
        check_time_bounds(&token.claims, now)?;
        Ok(token)
    }

    /// Checks the signature of a signed text under the one algorithm that is
    /// expected, reads it as an identity token, and holds its claims to the moment of
    /// the call.
    pub fn decode(decoding_key: &jsonwebtoken::DecodingKey, algorithm: Algorithm, raw: &str) -> (token:
        Result<IdToken>)
        ensures
            match token {
                Ok(t) => t@.raw == raw@ && t.header.alg == algorithm && t@.reads_back(),
                Err(e) => e.kind == ErrorKind::SignatureInvalid || e.kind == ErrorKind::Malformed
                    || e.kind == ErrorKind::ExpiredOrNotYetValid,
            },
            exists|now: u64| #[trigger] IdToken::verdict_fits(token, raw@, now),
            !IdTokenView::fits(raw@) ==> token is Err,
    {
        let now = duration_since_epoch();
        let token = IdToken::decode_at(decoding_key, algorithm, raw, now);
        assert(IdToken::verdict_fits(token, raw@, now));
        token
    }
}

/// A signed access token with what it holds.
#[derive(Debug, PartialEq, Eq)]
pub struct AccessToken {
    pub header: Header,
    pub claims: JwtClaim,
    pub content: AccessClaims,
    pub raw: String,
}

/// An `AccessToken` as contracts see it.
pub struct AccessTokenView {
    pub header: HeaderView,
    pub claims: JwtClaimView,
    pub content: AccessClaimsView,
    pub raw: Seq<char>,
}

impl AccessTokenView {
    /// The signed text names the header and carries exactly the claims and the
    /// content: the state of a token that was just issued.
    pub open spec fn issued(self) -> bool {
        &&& token_header(self.raw) == self.header.as_written()
        &&& token_payload(self.raw) == merged_entries(
            self.claims.entries(),
            self.content.entries(),
        )
    }

    /// Header, claims and content are what the signed text reads as: the
    /// state of every token, issued or read.
    pub open spec fn reads_back(self) -> bool {
        &&& token_header(self.raw) == self.header.as_written()
        &&& JwtClaimView::parse(token_payload(self.raw)) == Some(self.claims)
        &&& AccessClaimsView::parse(token_payload(self.raw)) == Some(self.content)
    }

    /// Whether a signed text reads as an access token at all.
    pub open spec fn fits(raw: Seq<char>) -> bool {
        JwtClaimView::parse(token_payload(raw)) is Some && AccessClaimsView::parse(
            token_payload(raw),
        ) is Some
    }
}

impl View for AccessToken {
    type V = AccessTokenView;

    open spec fn view(&self) -> AccessTokenView {
        AccessTokenView {
            header: self.header@,
            claims: self.claims@,
            content: self.content@,
            raw: self.raw@,
        }
    }
}

impl AccessToken {
    /// Signs an access token over the claims and the content.
    pub fn create(
        encoding_key: &jsonwebtoken::EncodingKey,
        header: &Header,
        common_claims: JwtClaim,
        access_claims: AccessClaims,
    ) -> (token: Result<AccessToken>)
        ensures
            match token {
                Ok(t) => t.header == *header && t.claims == common_claims && t.content
                    == access_claims && t@.issued() && t@.reads_back(),
                Err(e) => e.kind == ErrorKind::Serialization || e.kind == ErrorKind::Signing,
            },
    {
        let raw = create_token(
            encoding_key,
            header,
            common_claims.clone(),
            access_claims.to_json_object(),
        )?;
        proof {
            lemma_access_claims_read_back(common_claims@, access_claims@);
            lemma_claims_read_back(common_claims@, access_claims@.entries());
        }
        Ok(
            AccessToken {
                header: header.clone(),
                claims: common_claims,
                content: access_claims,
                raw,
            },
        )
    }

    /// Makes a token of a header, the document that a signed text was found to
    /// carry, and that text. The document has to hold registered claims and the
    /// content of an access token, each field of the right kind; what else it
    /// holds is passed over.
    pub fn from_document(header: Header, document: &JsonObject, raw: String) -> (token: Result<
        AccessToken,
    >)
        ensures
            match token {
                Ok(t) => t.header == header && t.raw == raw && JwtClaimView::parse(
                    json_entries(*document),
                ) == Some(t@.claims) && AccessClaimsView::parse(json_entries(*document)) == Some(
                    t@.content,
                ),
                Err(e) => if JwtClaimView::parse(json_entries(*document)) is None {
                    e@ == malformed("registered claims do not fit"@)
                } else {
                    AccessClaimsView::parse(json_entries(*document)) is None && e@ == malformed(
                        "access token content does not fit"@,
                    )
                },
            },
    {
        let claims = JwtClaim::from_json_object(document)?;
        let content = AccessClaims::from_json_object(document)?;
        Ok(AccessToken { header, claims, content, raw })
    }

    /// What holds of the answer on one signed text at `now`: a token whose
    /// claims hold at `now`, or a refusal that fits.
    pub open spec fn verdict_fits(token: Result<AccessToken>, raw: Seq<char>, now: u64) -> bool {
        match token {
            Ok(t) => t@.claims.in_time(now),
            Err(e) => single_refusal_fits(e@, raw, AccessTokenView::fits(raw), now),
        }
    }

    /// Checks the signature of a signed text under the one algorithm that is
    /// expected, reads it as an access token, and holds its claims to the moment
    /// `now`, counted in seconds from the epoch. A text that does not read as
    /// one, or whose claims do not hold at `now`, is never accepted.
    pub fn decode_at(
        decoding_key: &jsonwebtoken::DecodingKey,
        algorithm: Algorithm,
        raw: &str,
        now: u64,
    ) -> (token: Result<AccessToken>)
        ensures
            AccessToken::verdict_fits(token, raw@, now),
            token is Ok ==> token.unwrap()@.raw == raw@ && token.unwrap().header.alg == algorithm
                && token.unwrap()@.reads_back(),
            !AccessTokenView::fits(raw@) ==> token is Err,
            AccessTokenView::fits(raw@) && !JwtClaimView::parse(token_payload(raw@)).unwrap().in_time(
                now,
            ) ==> token is Err,
    {
        let (header, document) = decode_token(decoding_key, algorithm, raw)?;
        let token = AccessToken::from_document(header, &document, raw.to_owned())?;
        check_time_bounds(&token.claims, now)?;
        Ok(token)
    }

    /// Checks the signature of a signed text under the one algorithm that is
    /// expected, reads it as an access token, and holds its claims to the moment of
    /// the call.
    pub fn decode(decoding_key: &jsonwebtoken::DecodingKey, algorithm: Algorithm, raw: &str) -> (token:
        Result<AccessToken>)
        ensures
            match token {
                Ok(t) => t@.raw == raw@ && t.header.alg == algorithm && t@.reads_back(),
                Err(e) => e.kind == ErrorKind::SignatureInvalid || e.kind == ErrorKind::Malformed
                    || e.kind == ErrorKind::ExpiredOrNotYetValid,
            },
            exists|now: u64| #[trigger] AccessToken::verdict_fits(token, raw@, now),
            !AccessTokenView::fits(raw@) ==> token is Err,
    {
        let now = duration_since_epoch();
        let token = AccessToken::decode_at(decoding_key, algorithm, raw, now);
        assert(AccessToken::verdict_fits(token, raw@, now));
        token
    }
}

/// An identity token and the access token that it was issued with.
#[derive(Debug, PartialEq, Eq)]
pub struct TokenPair {
    pub id_token: IdToken,
    pub access_token: AccessToken,
}

/// A `TokenPair` as contracts see it.
pub struct TokenPairView {
    pub id_token: IdTokenView,
    pub access_token: AccessTokenView,
}

impl TokenPairView {
    /// The identity token carries the hash of the access token's signed text,
    /// which is short enough to have one, and the hash has the length of a
    /// hash.
    pub open spec fn bound(self) -> bool {
        &&& hashable(self.access_token.raw)
        &&& self.id_token.content.at_hash == Some(binding_hash(self.access_token.raw))
        &&& binding_hash(self.access_token.raw).len() == HASH_LENGTH
    }

    /// What holds of every pair that this library hands out: each token reads
    /// back as what it holds, and the identity token is bound to the access
    /// token.
    pub open spec fn well_formed(self) -> bool {
        self.id_token.reads_back() && self.access_token.reads_back() && self.bound()
    }

    /// The pair is what issuing gives for these inputs: both tokens carry the
    /// header and the claims, the access token the access content, and the
    /// identity token the identity content with the hash of the access token's
    /// signed text in it.
    pub open spec fn issued_from(
        self,
        header: HeaderView,
        claims: JwtClaimView,
        id_claims: IdClaimsView,
        access_claims: AccessClaimsView,
    ) -> bool {
        &&& self.access_token.header == header
        &&& self.access_token.claims == claims
        &&& self.access_token.content == access_claims
        &&& self.access_token.issued()
        &&& self.id_token.header == header
        &&& self.id_token.claims == claims
        &&& self.id_token.content == id_claims.with_at_hash(binding_hash(self.access_token.raw))
        &&& self.id_token.issued()
    }

    /// The pair is what verifying gives for these two signed texts: each token
    /// is what its text reads as, under the expected algorithm, and the
    /// identity token carries the hash of the access token's text.
    pub open spec fn read_from(
        self,
        algorithm: Algorithm,
        raw_id_token: Seq<char>,
        raw_access_token: Seq<char>,
    ) -> bool {
        &&& self.id_token.raw == raw_id_token
        &&& self.id_token.header.alg == algorithm
        &&& self.id_token.reads_back()
        &&& self.access_token.raw == raw_access_token
        &&& self.access_token.header.alg == algorithm
        &&& self.access_token.reads_back()
        &&& self.bound()
    }
}

impl View for TokenPair {
    type V = TokenPairView;

    open spec fn view(&self) -> TokenPairView {
        TokenPairView { id_token: self.id_token@, access_token: self.access_token@ }
    }
}

/// The error for an identity token that does not carry the hash of the access
/// token beside it.
pub open spec fn binding_mismatch() -> ErrorView {
    ErrorView {
        kind: ErrorKind::BindingMismatch,
        message: "identity token is not bound to this access token"@,
    }
}

/// What holds of an error with which the verifier turns two signed texts away
/// at `now`. It is one of five kinds. A token out of its time is reported only
/// where the identity text reads as an identity token and its claims do not
/// hold at `now`, or where they do, and the access text reads as an access
/// token whose claims do not. A binding mismatch is reported only of two texts
/// that read as the two tokens, both within their time, where the hash in the
/// first is not the hash of the second; and an encoding error only of an access
/// token too long to hash.
pub open spec fn refusal_fits(
    error: ErrorView,
    raw_id_token: Seq<char>,
    raw_access_token: Seq<char>,
    now: u64,
) -> bool {
    let id_claims = JwtClaimView::parse(token_payload(raw_id_token)).unwrap();
    let access_claims = JwtClaimView::parse(token_payload(raw_access_token)).unwrap();
    match error.kind {
        ErrorKind::SignatureInvalid | ErrorKind::Malformed => true,
        ErrorKind::ExpiredOrNotYetValid => {
            &&& error == out_of_time()
            &&& IdTokenView::fits(raw_id_token)
            &&& !id_claims.in_time(now) || (AccessTokenView::fits(raw_access_token)
                && !access_claims.in_time(now))
        },
        ErrorKind::BindingMismatch => {
            &&& error == binding_mismatch()
            &&& IdTokenView::fits(raw_id_token)
            &&& AccessTokenView::fits(raw_access_token)
            &&& id_claims.in_time(now)
            &&& access_claims.in_time(now)
            &&& hashable(raw_access_token)
            &&& IdClaimsView::parse(token_payload(raw_id_token)).unwrap().at_hash != Some(
                binding_hash(raw_access_token),
            )
        },
        ErrorKind::Encoding => error == too_long() && !hashable(raw_access_token),
        _ => false,
    }
}

/// What holds of the verifier's answer on two signed texts at `now`: a pair
/// that is what the two texts read as, both within their time and bound to
/// each other, or a refusal that fits.
pub open spec fn verdict_fits(
    pair: Result<TokenPair>,
    algorithm: Algorithm,
    raw_id_token: Seq<char>,
    raw_access_token: Seq<char>,
    now: u64,
) -> bool {
    match pair {
        Ok(p) => {
            &&& p@.read_from(algorithm, raw_id_token, raw_access_token)
            &&& p@.id_token.claims.in_time(now)
            &&& p@.access_token.claims.in_time(now)
        },
        Err(e) => refusal_fits(e@, raw_id_token, raw_access_token, now),
    }
}

/// The texts that the verifier never accepts at `now`: one that does not read
/// as its kind of token, or whose claims do not hold at `now`.
pub open spec fn never_accepted(
    raw_id_token: Seq<char>,
    raw_access_token: Seq<char>,
    now: u64,
) -> bool {
    ||| !IdTokenView::fits(raw_id_token)
    ||| !AccessTokenView::fits(raw_access_token)
    ||| !JwtClaimView::parse(token_payload(raw_id_token)).unwrap().in_time(now)
    ||| !JwtClaimView::parse(token_payload(raw_access_token)).unwrap().in_time(now)
}

impl TokenPair {
    /// Issues a pair. The access token is signed first; its hash goes into the
    /// content of the identity token, which is signed last. Where anything
    /// fails, no token is handed out.
    pub fn create(
        encoding_key: &jsonwebtoken::EncodingKey,
        header: &Header,
        common_claims: JwtClaim,
        id_claims: IdClaims,
        access_claims: AccessClaims,
    ) -> (pair: Result<TokenPair>)
        ensures
            match pair {
                Ok(p) => p@.issued_from(header@, common_claims@, id_claims@, access_claims@)
                    && p@.well_formed(),
                Err(e) => e.kind == ErrorKind::Serialization || e.kind == ErrorKind::Signing
                    || e.kind == ErrorKind::Encoding,
            },
    {
        let access_token = AccessToken::create(
            encoding_key,
            header,
            common_claims.clone(),
            access_claims,
        )?;
        let at_hash = access_token_hash(access_token.raw.as_str())?;
        let id_token = IdToken::create(
            encoding_key,
            header,
            common_claims,
            id_claims.with_at_hash(at_hash),
        )?;
        Ok(TokenPair { id_token, access_token })
    }

    /// Puts two tokens together if the identity token carries the hash of the
    /// access token's signed text. An identity token without a hash is bound to
    /// no access token.
    pub fn bind(id_token: IdToken, access_token: AccessToken) -> (pair: Result<TokenPair>)
        ensures
            match pair {
                Ok(p) => p.id_token == id_token && p.access_token == access_token && p@.bound(),
                Err(e) => if !hashable(access_token.raw@) {
                    e@ == too_long()
                } else {
                    id_token@.content.at_hash != Some(binding_hash(access_token.raw@)) && e@
                        == binding_mismatch()
                },
            },
    {
        let expected = access_token_hash(access_token.raw.as_str())?;
        let bound = match &id_token.content.at_hash {
            Some(found) => *found == expected,
            None => false,
        };
        if bound {
            Ok(TokenPair { id_token, access_token })
        } else {
            Err(
                Error::new(
                    ErrorKind::BindingMismatch,
                    "identity token is not bound to this access token",
                ),
            )
        }
    }

    /// Checks both signed texts under the given algorithm and at the moment
    /// `now`, each on its own, and then that the identity token carries the
    /// hash of the access token.
    pub fn verify_at(
        decoding_key: &jsonwebtoken::DecodingKey,
        algorithm: Algorithm,
        raw_id_token: &str,
        raw_access_token: &str,
        now: u64,
    ) -> (pair: Result<TokenPair>)
        ensures
            verdict_fits(pair, algorithm, raw_id_token@, raw_access_token@, now),
            pair is Ok ==> pair.unwrap()@.well_formed(),
            never_accepted(raw_id_token@, raw_access_token@, now) ==> pair is Err,
    {
        let id_token = IdToken::decode_at(decoding_key, algorithm, raw_id_token, now)?;
        let access_token = AccessToken::decode_at(decoding_key, algorithm, raw_access_token, now)?;
        TokenPair::bind(id_token, access_token)
    }

    /// Checks both signed texts under the given algorithm and at the moment of
    /// the call, each on its own, and then that the identity token carries the
    /// hash of the access token. The clock is read once.
    pub fn verify_with(
        decoding_key: &jsonwebtoken::DecodingKey,
        algorithm: Algorithm,
        raw_id_token: &str,
        raw_access_token: &str,
    ) -> (pair: Result<TokenPair>)
        ensures
            exists|now: u64| #[trigger]
                verdict_fits(pair, algorithm, raw_id_token@, raw_access_token@, now),
            pair is Ok ==> pair.unwrap()@.read_from(algorithm, raw_id_token@, raw_access_token@)
                && pair.unwrap()@.well_formed(),
            !IdTokenView::fits(raw_id_token@) || !AccessTokenView::fits(raw_access_token@)
                ==> pair is Err,
    {
        let now = duration_since_epoch();
        let pair = TokenPair::verify_at(
            decoding_key,
            algorithm,
            raw_id_token,
            raw_access_token,
            now,
        );
        assert(verdict_fits(pair, algorithm, raw_id_token@, raw_access_token@, now));
        pair
    }

    /// Checks both signed texts under the algorithm of the deployment and at
    /// the moment of the call, each on its own, and then that the identity
    /// token carries the hash of the access token.
    pub fn verify(
        decoding_key: &jsonwebtoken::DecodingKey,
        raw_id_token: &str,
        raw_access_token: &str,
    ) -> (pair: Result<TokenPair>)
        ensures
            exists|now: u64| #[trigger]
                verdict_fits(pair, DEPLOYED_ALGORITHM, raw_id_token@, raw_access_token@, now),
            pair is Ok ==> pair.unwrap()@.read_from(
                DEPLOYED_ALGORITHM,
                raw_id_token@,
                raw_access_token@,
            ) && pair.unwrap()@.well_formed(),
            !IdTokenView::fits(raw_id_token@) || !AccessTokenView::fits(raw_access_token@)
                ==> pair is Err,
    {
        TokenPair::verify_with(decoding_key, DEPLOYED_ALGORITHM, raw_id_token, raw_access_token)
    }
}

/// Issuing and then verifying gives back what went in: whenever a pair issued
/// from some header, claims and contents is accepted by the verifier, the pair
/// that the verifier returns holds that header, those claims, the access
/// content, and the identity content with the hash of the access token in it.
pub proof fn lemma_round_trip(
    header: HeaderView,
    claims: JwtClaimView,
    id_claims: IdClaimsView,
    access_claims: AccessClaimsView,
    issued: TokenPairView,
    algorithm: Algorithm,
    read: TokenPairView,
)
    requires
        issued.issued_from(header, claims, id_claims, access_claims),
        read.read_from(algorithm, issued.id_token.raw, issued.access_token.raw),
    ensures
        read.id_token.header == header,
        read.access_token.header == header,
        read.id_token.claims == claims,
        read.access_token.claims == claims,
        read.access_token.content == access_claims,
        read.id_token.content == id_claims.with_at_hash(binding_hash(issued.access_token.raw)),
        read == issued,
{
    lemma_algorithm_names_differ(header.alg, algorithm);
    lemma_id_claims_read_back(claims, issued.id_token.content);
    lemma_claims_read_back(claims, issued.id_token.content.entries());
    lemma_access_claims_read_back(claims, access_claims);
    lemma_claims_read_back(claims, access_claims.entries());
}

/// An identity token goes with one access token: where the verifier accepts
/// the same identity token beside two access tokens, the two have the same
/// hash. A changed access token is therefore accepted only if its hash did not
/// change.
pub proof fn lemma_identity_token_binds_one_hash(
    first: TokenPairView,
    second: TokenPairView,
    first_algorithm: Algorithm,
    second_algorithm: Algorithm,
    raw_id_token: Seq<char>,
    first_access_token: Seq<char>,
    second_access_token: Seq<char>,
)
    requires
        first.read_from(first_algorithm, raw_id_token, first_access_token),
        second.read_from(second_algorithm, raw_id_token, second_access_token),
    ensures
        binding_hash(first_access_token) == binding_hash(second_access_token),
{
}

/// The hash in an identity token tells issued pairs apart as far as the hashes
/// of their access tokens do: two pairs whose access tokens have different
/// hashes carry different hashes in their identity tokens.
pub proof fn lemma_different_hashes_stay_apart(
    first: TokenPairView,
    second: TokenPairView,
)
    requires
        first.bound(),
        second.bound(),
        binding_hash(first.access_token.raw) != binding_hash(second.access_token.raw),
    ensures
        first.id_token.content.at_hash != second.id_token.content.at_hash,
{
}

/// The tokens of an issued pair cannot stand in for each other: the access
/// token does not read as an identity token, nor the identity token as an
/// access token, so the verifier accepts neither in the other's place.
pub proof fn lemma_swapped_tokens_do_not_fit(
    header: HeaderView,
    claims: JwtClaimView,
    id_claims: IdClaimsView,
    access_claims: AccessClaimsView,
    issued: TokenPairView,
)
    requires
        issued.issued_from(header, claims, id_claims, access_claims),
    ensures
        !IdTokenView::fits(issued.access_token.raw),
        !AccessTokenView::fits(issued.id_token.raw),
        forall|algorithm: Algorithm, read: TokenPairView| !#[trigger] read.read_from(
            algorithm,
            issued.access_token.raw,
            issued.id_token.raw,
        ),
{
    lemma_access_claims_read_back(claims, access_claims);
    lemma_id_claims_read_back(claims, issued.id_token.content);
}

} // verus!
