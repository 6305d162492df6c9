//! Registered claims, the two kinds of content, and the document that merges
//! claims and content for signing.

use vstd::prelude::*;

use crate::auth::errors::{Error, ErrorKind, ErrorView, Result};
use crate::auth::json::{
    json_append, json_document, json_entries, json_error_text, json_to_text, json_insert_null, json_insert_number, json_insert_text,
    json_lookup, json_object_new, lookup_in, no_entries, JsonLookup, JsonObject, JsonScalar,
};

verus! {

/// The text of an optional string.
pub open spec fn text_view(text: Option<String>) -> Option<Seq<char>> {
    match text {
        Some(s) => Some(s@),
        None => None,
    }
}

/// `entries` with `key` set to the text, or unchanged where there is none.
pub open spec fn put_text(
    entries: Map<Seq<char>, JsonScalar>,
    key: Seq<char>,
    text: Option<Seq<char>>,
) -> Map<Seq<char>, JsonScalar> {
    match text {
        Some(s) => entries.insert(key, JsonScalar::Text(s)),
        None => entries,
    }
}

/// `entries` with `key` set to the number, or unchanged where there is none.
pub open spec fn put_number(
    entries: Map<Seq<char>, JsonScalar>,
    key: Seq<char>,
    number: Option<u64>,
) -> Map<Seq<char>, JsonScalar> {
    match number {
        Some(n) => entries.insert(key, JsonScalar::Number(n)),
        None => entries,
    }
}

/// The text under `key` where the key is required: a string, and nothing else.
pub open spec fn required_text(entries: Map<Seq<char>, JsonScalar>, key: Seq<char>) -> Option<
    Seq<char>,
> {
    match lookup_in(entries, key) {
        Some(JsonScalar::Text(s)) => Some(s),
        _ => None,
    }
}

/// The text under `key` where the key may be left out: no key and `null` both
/// read as absent, a string as itself, and anything else does not fit.
pub open spec fn optional_text(entries: Map<Seq<char>, JsonScalar>, key: Seq<char>) -> Option<
    Option<Seq<char>>,
> {
    match lookup_in(entries, key) {
        None | Some(JsonScalar::Null) => Some(None),
        Some(JsonScalar::Text(s)) => Some(Some(s)),
        _ => None,
    }
}

/// The number under `key` where the key may be left out: no key and `null` both
/// read as absent, a non-negative integer as itself, and anything else does not
/// fit.
pub open spec fn optional_number(entries: Map<Seq<char>, JsonScalar>, key: Seq<char>) -> Option<
    Option<u64>,
> {
    match lookup_in(entries, key) {
        None | Some(JsonScalar::Null) => Some(None),
        Some(JsonScalar::Number(n)) => Some(Some(n)),
        _ => None,
    }
}

/// The first few characters of every field name, which tell the names apart.
pub proof fn lemma_field_names()
    ensures
        "iss"@.len() == 3 && "iss"@[0] == 'i' && "iss"@[1] == 's',
        "sub"@.len() == 3 && "sub"@[0] == 's',
        "aud"@.len() == 3 && "aud"@[0] == 'a',
        "exp"@.len() == 3 && "exp"@[0] == 'e',
        "nbf"@.len() == 3 && "nbf"@[0] == 'n',
        "iat"@.len() == 3 && "iat"@[0] == 'i' && "iat"@[1] == 'a',
        "jti"@.len() == 3 && "jti"@[0] == 'j',
        "id"@.len() == 2,
        "name"@.len() == 4,
        "email"@.len() == 5,
        "at_hash"@.len() == 7,
        "session_id"@.len() == 10,
{
    reveal_strlit("iss");
    reveal_strlit("sub");
    reveal_strlit("aud");
    reveal_strlit("exp");
    reveal_strlit("nbf");
    reveal_strlit("iat");
    reveal_strlit("jti");
    reveal_strlit("id");
    reveal_strlit("name");
    reveal_strlit("email");
    reveal_strlit("at_hash");
    reveal_strlit("session_id");
}

/// The error for a document that does not have the shape asked for.
pub open spec fn malformed(message: Seq<char>) -> ErrorView {
    ErrorView { kind: ErrorKind::Malformed, message }
}

fn read_required_text(object: &JsonObject, key: &str) -> (text: Option<String>)
    ensures
        text_view(text) == required_text(json_entries(*object), key@),
{
    match json_lookup(object, key) {
        JsonLookup::Text(s) => Some(s),
        _ => None,
    }
}

fn read_optional_text(object: &JsonObject, key: &str) -> (text: Option<Option<String>>)
    ensures
        match text {
            Some(t) => optional_text(json_entries(*object), key@) == Some(text_view(t)),
            None => optional_text(json_entries(*object), key@) is None,
        },
{
    match json_lookup(object, key) {
        JsonLookup::Missing | JsonLookup::Null => Some(None),
        JsonLookup::Text(s) => Some(Some(s)),
        _ => None,
    }
}

fn read_optional_number(object: &JsonObject, key: &str) -> (number: Option<Option<u64>>)
    ensures
        number == optional_number(json_entries(*object), key@),
{
    match json_lookup(object, key) {
        JsonLookup::Missing | JsonLookup::Null => Some(None),
        JsonLookup::Number(n) => Some(Some(n)),
        _ => None,
    }
}

fn write_optional_text(object: &mut JsonObject, key: &str, text: &Option<String>)
    ensures
        json_entries(*final(object)) == put_text(json_entries(*old(object)), key@, text_view(*text)),
{
    if let Some(s) = text {
        json_insert_text(object, key, s.as_str());
    }
}

pub(crate) fn clone_text(text: &Option<String>) -> (copy: Option<String>)
    ensures
        copy == *text,
{
    match text {
        Some(s) => Some(s.clone()),
        None => None,
    }
}

fn write_optional_number(object: &mut JsonObject, key: &str, number: Option<u64>)
    ensures
        json_entries(*final(object)) == put_number(json_entries(*old(object)), key@, number),
{
    if let Some(n) = number {
        json_insert_number(object, key, n);
    }
}

/// The content of an access token.
#[derive(Debug, PartialEq, Eq)]
pub struct AccessClaims {
    pub session_id: String,
}

/// An `AccessClaims` as contracts see it.
pub struct AccessClaimsView {
    pub session_id: Seq<char>,
}

impl AccessClaimsView {
    /// The entries that the content contributes to a signed document.
    pub open spec fn entries(self) -> Map<Seq<char>, JsonScalar> {
        no_entries().insert("session_id"@, JsonScalar::Text(self.session_id))
    }

    /// The content that a document with these entries holds, if it holds one.
    pub open spec fn parse(entries: Map<Seq<char>, JsonScalar>) -> Option<AccessClaimsView> {
        match required_text(entries, "session_id"@) {
            Some(session_id) => Some(AccessClaimsView { session_id }),
            None => None,
        }
    }
}

impl View for AccessClaims {
    type V = AccessClaimsView;

    open spec fn view(&self) -> AccessClaimsView {
        AccessClaimsView { session_id: self.session_id@ }
    }
}

impl Clone for AccessClaims {
    fn clone(&self) -> (copy: Self)
        ensures
            copy == *self,
    {
        AccessClaims { session_id: self.session_id.clone() }
    }
}

impl AccessClaims {
    /// The content as a JSON object of its own.
    pub fn to_json_object(&self) -> (object: JsonObject)
        ensures
            json_entries(object) == self@.entries(),
    {
        let mut object = json_object_new();
        json_insert_text(&mut object, "session_id", self.session_id.as_str());
        object
    }

    /// Reads the content back from a document; fields that do not belong to it
    /// are passed over.
    pub fn from_json_object(object: &JsonObject) -> (content: Result<AccessClaims>)
        ensures
            match content {
                Ok(c) => AccessClaimsView::parse(json_entries(*object)) == Some(c@),
                Err(e) => AccessClaimsView::parse(json_entries(*object)) is None && e@
                    == malformed("access token content does not fit"@),
            },
    {
        match read_required_text(object, "session_id") {
            Some(session_id) => Ok(AccessClaims { session_id }),
            None => Err(Error::new(ErrorKind::Malformed, "access token content does not fit")),
        }
    }
}

/// The content of an identity token.
#[derive(Debug, PartialEq, Eq)]
pub struct IdClaims {
    pub id: String,
    pub name: String,
    pub email: String,
    pub at_hash: Option<String>,
}

/// An `IdClaims` as contracts see it.
pub struct IdClaimsView {
    pub id: Seq<char>,
    pub name: Seq<char>,
    pub email: Seq<char>,
    pub at_hash: Option<Seq<char>>,
}

impl IdClaimsView {
    /// The same content with the hash of an access token in it.
    pub open spec fn with_at_hash(self, at_hash: Seq<char>) -> IdClaimsView {
        IdClaimsView { at_hash: Some(at_hash), ..self }
    }

    /// Whether the content names somebody: id, name and email are not empty.
    /// Content that a caller hands to the issuer is meant to.
    pub open spec fn names_somebody(self) -> bool {
        self.id.len() > 0 && self.name.len() > 0 && self.email.len() > 0
    }

    /// The entries that the content contributes to a signed document. A hash
    /// that is absent is written as `null`.
    pub open spec fn entries(self) -> Map<Seq<char>, JsonScalar> {
        no_entries().insert("id"@, JsonScalar::Text(self.id)).insert(
            "name"@,
            JsonScalar::Text(self.name),
        ).insert("email"@, JsonScalar::Text(self.email)).insert(
            "at_hash"@,
            match self.at_hash {
                Some(h) => JsonScalar::Text(h),
                None => JsonScalar::Null,
            },
        )
    }

    /// The content that a document with these entries holds, if it holds one.
    pub open spec fn parse(entries: Map<Seq<char>, JsonScalar>) -> Option<IdClaimsView> {
        match (
            required_text(entries, "id"@),
            required_text(entries, "name"@),
            required_text(entries, "email"@),
            optional_text(entries, "at_hash"@),
        ) {
            (Some(id), Some(name), Some(email), Some(at_hash)) => Some(
                IdClaimsView { id, name, email, at_hash },
            ),
            _ => None,
        }
    }
}

impl View for IdClaims {
    type V = IdClaimsView;

    open spec fn view(&self) -> IdClaimsView {
        IdClaimsView {
            id: self.id@,
            name: self.name@,
            email: self.email@,
            at_hash: text_view(self.at_hash),
        }
    }
}

impl Clone for IdClaims {
    fn clone(&self) -> (copy: Self)
        ensures
            copy == *self,
    {
        IdClaims {
            id: self.id.clone(),
            name: self.name.clone(),
            email: self.email.clone(),
            at_hash: clone_text(&self.at_hash),
        }
    }
}

impl IdClaims {
    /// The same content but for the hash of the access token.
    pub fn with_at_hash(self, at_hash: String) -> (claims: Self)
        ensures
            claims@ == self@.with_at_hash(at_hash@),
    {
        IdClaims { id: self.id, name: self.name, email: self.email, at_hash: Some(at_hash) }
    }

    /// Whether id, name and email are all there. Issuing and verifying do not
    /// ask: they sign and read whatever content they are given. It is for the
    /// caller who makes the content, from a user record or a request, to hold
    /// it to this before a token is issued for it.
    pub fn names_somebody(&self) -> (named: bool)
        ensures
            named == self@.names_somebody(),
    {
        !self.id.as_str().is_empty() && !self.name.as_str().is_empty()
            && !self.email.as_str().is_empty()
    }

    /// The content as a JSON object of its own.
    pub fn to_json_object(&self) -> (object: JsonObject)
        ensures
            json_entries(object) == self@.entries(),
    {
        let mut object = json_object_new();
        json_insert_text(&mut object, "id", self.id.as_str());
        json_insert_text(&mut object, "name", self.name.as_str());
        json_insert_text(&mut object, "email", self.email.as_str());
        match &self.at_hash {
            Some(h) => json_insert_text(&mut object, "at_hash", h.as_str()),
            None => json_insert_null(&mut object, "at_hash"),
        }
        object
    }

    /// Reads the content back from a document; fields that do not belong to it
    /// are passed over.
    pub fn from_json_object(object: &JsonObject) -> (content: Result<IdClaims>)
        ensures
            match content {
                Ok(c) => IdClaimsView::parse(json_entries(*object)) == Some(c@),
                Err(e) => IdClaimsView::parse(json_entries(*object)) is None && e@ == malformed(
                    "identity token content does not fit"@,
                ),
            },
    {
        let id = read_required_text(object, "id");
        let name = read_required_text(object, "name");
        let email = read_required_text(object, "email");
        let at_hash = read_optional_text(object, "at_hash");
        match (id, name, email, at_hash) {
            (Some(id), Some(name), Some(email), Some(at_hash)) => Ok(
                IdClaims { id, name, email, at_hash },
            ),
            _ => Err(Error::new(ErrorKind::Malformed, "identity token content does not fit")),
        }
    }
}

/// The registered claims that the tokens of a pair share. A claim that is
/// absent is left out of the signed document.
#[derive(Debug, PartialEq, Eq)]
pub struct JwtClaim {
    pub iss: Option<String>,
    pub sub: Option<String>,
    pub aud: Option<String>,
    pub exp: Option<u64>,
    pub nbf: Option<u64>,
    pub iat: Option<u64>,
    pub jti: Option<String>,
}

/// A `JwtClaim` as contracts see it.
pub struct JwtClaimView {
    pub iss: Option<Seq<char>>,
    pub sub: Option<Seq<char>>,
    pub aud: Option<Seq<char>>,
    pub exp: Option<u64>,
    pub nbf: Option<u64>,
    pub iat: Option<u64>,
    pub jti: Option<Seq<char>>,
}

impl JwtClaimView {
    /// Claims of which none is present.
    pub open spec fn empty() -> JwtClaimView {
        JwtClaimView { iss: None, sub: None, aud: None, exp: None, nbf: None, iat: None, jti: None }
    }

    /// The same claims but for the issuer.
    pub open spec fn with_issuer(self, issuer: Seq<char>) -> JwtClaimView {
        JwtClaimView { iss: Some(issuer), ..self }
    }

    /// The same claims but for the audience.
    pub open spec fn with_audience(self, audience: Seq<char>) -> JwtClaimView {
        JwtClaimView { aud: Some(audience), ..self }
    }

    /// The moment `seconds` after `now`, or the last moment that a `u64` can
    /// hold where the sum is past it.
    pub open spec fn expiry(now: u64, seconds: u64) -> u64 {
        if now + seconds <= u64::MAX {
            (now + seconds) as u64
        } else {
            u64::MAX
        }
    }

    /// The same claims but for the expiry, which is `seconds` after `now`.
    pub open spec fn expires_at(self, now: u64, seconds: u64) -> JwtClaimView {
        JwtClaimView { exp: Some(Self::expiry(now, seconds)), ..self }
    }

    /// Whether the claims allow acceptance at `now`: an expiry, if there is
    /// one, is not past, and a time before which not to accept, if there is
    /// one, has come. At the second of the expiry itself the claims still hold.
    pub open spec fn in_time(self, now: u64) -> bool {
        &&& self.exp is None || self.exp.unwrap() >= now
        &&& self.nbf is None || self.nbf.unwrap() <= now
    }

    /// The same claims but for the time of issue.
    pub open spec fn issued_at(self, now: u64) -> JwtClaimView {
        JwtClaimView { iat: Some(now), ..self }
    }

    /// The entries that the claims contribute to a signed document: one for
    /// each claim that is present, none for one that is absent.
    pub open spec fn entries(self) -> Map<Seq<char>, JsonScalar> {
        put_text(
            put_number(
                put_number(
                    put_number(
                        put_text(
                            put_text(put_text(no_entries(), "iss"@, self.iss), "sub"@, self.sub),
                            "aud"@,
                            self.aud,
                        ),
                        "exp"@,
                        self.exp,
                    ),
                    "nbf"@,
                    self.nbf,
                ),
                "iat"@,
                self.iat,
            ),
            "jti"@,
            self.jti,
        )
    }

    /// The claims that a document with these entries holds, if each registered
    /// name that it has holds a value of the right kind.
    pub open spec fn parse(entries: Map<Seq<char>, JsonScalar>) -> Option<JwtClaimView> {
        match (
            optional_text(entries, "iss"@),
            optional_text(entries, "sub"@),
            optional_text(entries, "aud"@),
            optional_number(entries, "exp"@),
            optional_number(entries, "nbf"@),
            optional_number(entries, "iat"@),
            optional_text(entries, "jti"@),
        ) {
            (Some(iss), Some(sub), Some(aud), Some(exp), Some(nbf), Some(iat), Some(jti)) => Some(
                JwtClaimView { iss, sub, aud, exp, nbf, iat, jti },
            ),
            _ => None,
        }
    }
}

/// A claim has an entry in the document exactly where it is present, and no
/// entry of the document holds `null`: a claim that is absent is left out.
pub proof fn lemma_absent_claims_are_left_out(claims: JwtClaimView)
    ensures
        claims.entries().dom().contains("iss"@) <==> claims.iss is Some,
        claims.entries().dom().contains("sub"@) <==> claims.sub is Some,
        claims.entries().dom().contains("aud"@) <==> claims.aud is Some,
        claims.entries().dom().contains("exp"@) <==> claims.exp is Some,
        claims.entries().dom().contains("nbf"@) <==> claims.nbf is Some,
        claims.entries().dom().contains("iat"@) <==> claims.iat is Some,
        claims.entries().dom().contains("jti"@) <==> claims.jti is Some,
        forall|key: Seq<char>| #[trigger]
            claims.entries().dom().contains(key) ==> claims.entries()[key] is Text
                || claims.entries()[key] is Number,
{
    lemma_field_names();
}

/// The expiry is a strict boundary: claims that expire `seconds` after `issued`
/// and name no time before which not to accept are in time at every moment up
/// to and at the expiry, and at none after it.
pub proof fn lemma_expiry_is_a_strict_boundary(
    claims: JwtClaimView,
    issued: u64,
    seconds: u64,
    now: u64,
)
    requires
        claims.nbf is None,
    ensures
        claims.expires_at(issued, seconds).in_time(now) <==> now <= JwtClaimView::expiry(
            issued,
            seconds,
        ),
        seconds == 0 ==> (claims.expires_at(issued, seconds).in_time(now) <==> now <= issued),
{
}

/// Setting issuer and audience on empty claims gives claims with those two and
/// nothing else, whatever the two are.
pub proof fn lemma_issuer_and_audience_only(issuer: Seq<char>, audience: Seq<char>)
    ensures
        JwtClaimView::empty().with_issuer(issuer).with_audience(audience) == (JwtClaimView {
            iss: Some(issuer),
            sub: None,
            aud: Some(audience),
            exp: None,
            nbf: None,
            iat: None,
            jti: None,
        }),
        JwtClaimView::empty().with_issuer(issuer).with_audience(audience)
            == JwtClaimView::empty().with_audience(audience).with_issuer(issuer),
{
}

impl View for JwtClaim {
    type V = JwtClaimView;

    open spec fn view(&self) -> JwtClaimView {
        JwtClaimView {
            iss: text_view(self.iss),
            sub: text_view(self.sub),
            aud: text_view(self.aud),
            exp: self.exp,
            nbf: self.nbf,
            iat: self.iat,
            jti: text_view(self.jti),
        }
    }
}

impl Clone for JwtClaim {
    fn clone(&self) -> (copy: Self)
        ensures
            copy == *self,
    {
        JwtClaim {
            iss: clone_text(&self.iss),
            sub: clone_text(&self.sub),
            aud: clone_text(&self.aud),
            exp: self.exp,
            nbf: self.nbf,
            iat: self.iat,
            jti: clone_text(&self.jti),
        }
    }
}

impl JwtClaim {
    /// Claims of which none is present.
    pub fn empty() -> (claims: JwtClaim)
        ensures
            claims@ == JwtClaimView::empty(),
    {
        JwtClaim { iss: None, sub: None, aud: None, exp: None, nbf: None, iat: None, jti: None }
    }

    /// The same claims but for the issuer.
    pub fn with_issuer(self, issuer: String) -> (claims: Self)
        ensures
            claims@ == self@.with_issuer(issuer@),
    {
        JwtClaim {
            iss: Some(issuer),
            sub: self.sub,
            aud: self.aud,
            exp: self.exp,
            nbf: self.nbf,
            iat: self.iat,
            jti: self.jti,
        }
    }

    /// The same claims but for the audience.
    pub fn with_audience(self, audience: String) -> (claims: Self)
        ensures
            claims@ == self@.with_audience(audience@),
    {
        JwtClaim {
            iss: self.iss,
            sub: self.sub,
            aud: Some(audience),
            exp: self.exp,
            nbf: self.nbf,
            iat: self.iat,
            jti: self.jti,
        }
    }

    /// Sets the expiry to `seconds` after `now`, both counted from the epoch.
    /// Where that moment is past the last one that a `u64` can hold, the
    /// expiry is that last moment.
    pub fn expires_at(self, now: u64, seconds: u64) -> (claims: Self)
        ensures
            claims@ == self@.expires_at(now, seconds),
    {
        JwtClaim {
            iss: self.iss,
            sub: self.sub,
            aud: self.aud,
            exp: Some(now.saturating_add(seconds)),
            nbf: self.nbf,
            iat: self.iat,
            jti: self.jti,
        }
    }

    /// Sets the expiry to `seconds` after the moment of the call. Whatever the
    /// clock says, there is an expiry afterwards, and it is not before
    /// `seconds`.
    pub fn expires_in(self, seconds: u64) -> (claims: Self)
        ensures
            exists|now: u64| claims@ == #[trigger] self@.expires_at(now, seconds),
            claims@.exp is Some,
            claims@.exp.unwrap() >= seconds,
    {
        let now = duration_since_epoch();
        self.expires_at(now, seconds)
    }

    /// Sets the time of issue to `now`, counted from the epoch.
    pub fn issued_at(self, now: u64) -> (claims: Self)
        ensures
            claims@ == self@.issued_at(now),
    {
        JwtClaim {
            iss: self.iss,
            sub: self.sub,
            aud: self.aud,
            exp: self.exp,
            nbf: self.nbf,
            iat: Some(now),
            jti: self.jti,
        }
    }

    /// Sets the time of issue to the moment of the call.
    pub fn issued_now(self) -> (claims: Self)
        ensures
            exists|now: u64| claims@ == #[trigger] self@.issued_at(now),
            claims@.iat is Some,
    {
        let now = duration_since_epoch();
        self.issued_at(now)
    }

    /// Puts the claims together with the JSON object of a token's content.
    pub fn with_content(self, content: JsonObject) -> (merged: JwtClaimWithContent)
        ensures
            merged.claim() == self,
            merged.content() == content,
    {
        JwtClaimWithContent { content, claim: self }
    }

    /// The claims as a JSON object of their own.
    pub fn to_json_object(&self) -> (object: JsonObject)
        ensures
            json_entries(object) == self@.entries(),
    {
        let mut object = json_object_new();
        write_optional_text(&mut object, "iss", &self.iss);
        write_optional_text(&mut object, "sub", &self.sub);
        write_optional_text(&mut object, "aud", &self.aud);
        write_optional_number(&mut object, "exp", self.exp);
        write_optional_number(&mut object, "nbf", self.nbf);
        write_optional_number(&mut object, "iat", self.iat);
        write_optional_text(&mut object, "jti", &self.jti);
        object
    }

    /// Reads the claims back from a document; fields that are no registered
    /// claims are passed over.
    pub fn from_json_object(object: &JsonObject) -> (claims: Result<JwtClaim>)
        ensures
            match claims {
                Ok(c) => JwtClaimView::parse(json_entries(*object)) == Some(c@),
                Err(e) => JwtClaimView::parse(json_entries(*object)) is None && e@ == malformed(
                    "registered claims do not fit"@,
                ),
            },
    {
        let iss = read_optional_text(object, "iss");
        let sub = read_optional_text(object, "sub");
        let aud = read_optional_text(object, "aud");
        let exp = read_optional_number(object, "exp");
        let nbf = read_optional_number(object, "nbf");
        let iat = read_optional_number(object, "iat");
        let jti = read_optional_text(object, "jti");
        match (iss, sub, aud, exp, nbf, iat, jti) {
            (Some(iss), Some(sub), Some(aud), Some(exp), Some(nbf), Some(iat), Some(jti)) => Ok(
                JwtClaim { iss, sub, aud, exp, nbf, iat, jti },
            ),
            _ => Err(Error::new(ErrorKind::Malformed, "registered claims do not fit")),
        }
    }
}

/// Registered claims together with the content of one token.
pub struct JwtClaimWithContent {
    content: JsonObject,
    claim: JwtClaim,
}

impl JwtClaimWithContent {
    /// The claims.
    pub closed spec fn claim(&self) -> JwtClaim {
        self.claim
    }

    /// The JSON object of the content.
    pub closed spec fn content(&self) -> JsonObject {
        self.content
    }

    /// The one flat document as JSON text. There always is one.
    pub fn as_json(&self) -> (text: Result<String>)
        ensures
            text is Ok,
            json_document(text.unwrap()@) == merged_entries(
                self.claim()@.entries(),
                json_entries(self.content()),
            ),
    {
        let document = merge_json(self.claim.to_json_object(), &self.content);
        match json_to_text(&document) {
            Ok(t) => Ok(t),
            Err(error) => Err(
                Error { kind: ErrorKind::Serialization, message: json_error_text(&error) },
            ),
        }
    }

    /// The one flat document that is signed: the fields of the claims and the
    /// fields of the content.
    pub fn as_json_value(&self) -> (document: Result<JsonObject>)
        ensures
            document is Ok,
            json_entries(document.unwrap()) == merged_entries(
                self.claim()@.entries(),
                json_entries(self.content()),
            ),
    {
        let claims = self.claim.to_json_object();
        Ok(merge_json(claims, &self.content))
    }
}

/// The entries of two documents in one. A name that both have keeps what the
/// second holds under it.
pub open spec fn merged_entries(
    first: Map<Seq<char>, JsonScalar>,
    second: Map<Seq<char>, JsonScalar>,
) -> Map<Seq<char>, JsonScalar> {
    first.union_prefer_right(second)
}

/// `std::time::SystemTime::elapsed` of the epoch: the time since then, or
/// nothing where the clock stands before it. Nothing is claimed of the time.
#[verifier::external_body]
fn since_epoch() -> (elapsed: Option<std::time::Duration>) {
    std::time::UNIX_EPOCH.elapsed().ok()
}

/// `std::time::Duration::as_secs`: the whole seconds of a span of time.
/// Nothing is claimed of the number.
#[verifier::external_body]
fn whole_seconds(elapsed: &std::time::Duration) -> (seconds: u64) {
    elapsed.as_secs()
}

/// Seconds since the epoch by the clock of the machine. A clock that stands
/// before the epoch reads as the epoch itself.
pub(crate) fn duration_since_epoch() -> (seconds: u64) {
    match since_epoch() {
        Some(elapsed) => whole_seconds(&elapsed),
        None => 0,
    }
}

/// Whether the time bounds of the claims hold at `now`, counted in seconds from
/// the epoch.
pub fn time_bounds_hold(claims: &JwtClaim, now: u64) -> (held: bool)
    ensures
        held == claims@.in_time(now),
        held == ((claims@.exp is None || claims@.exp.unwrap() >= now) && (claims@.nbf is None
            || claims@.nbf.unwrap() <= now)),
{
    let not_expired = match claims.exp {
        Some(exp) => exp >= now,
        None => true,
    };
    let due = match claims.nbf {
        Some(nbf) => nbf <= now,
        None => true,
    };
    not_expired && due
}

/// Merges two flat documents into one that has the fields of both.
pub fn merge_json(first: JsonObject, second: &JsonObject) -> (merged: JsonObject)
    ensures
        json_entries(merged) == merged_entries(json_entries(first), json_entries(*second)),
{
    let mut merged = first;
    json_append(&mut merged, second);
    merged
}

} // verus!
