//! Signing a document into a token and reading a token back.
//!
//! The signed text is made and its signature checked by `jsonwebtoken`. What
//! this library knows of a token is what its header says, `token_header`, and
//! the document that its text carries, `token_payload`; the calls below are
//! trusted to say so and are not proved here. Whether a token is within its
//! time is decided by this library, on the claims of the document.

use vstd::prelude::*;

use crate::auth::claims::{clone_text, merged_entries, text_view, JwtClaim};
use crate::auth::errors::{Error, ErrorKind, ErrorView, Result};
use crate::auth::json::{json_entries, JsonObject, JsonScalar};

verus! {

/// The entries of the document that a token's text carries between its two
/// dots. It says nothing of a text that is no token.
pub uninterp spec fn token_payload(raw: Seq<char>) -> Map<Seq<char>, JsonScalar>;

/// What the header of a token's text, the part before its first dot, says of
/// the signature: the name of the algorithm and, where there is one, the id of
/// the key. It says nothing of a text that is no token.
pub uninterp spec fn token_header(raw: Seq<char>) -> (Seq<char>, Option<Seq<char>>);

/// The algorithms under which a token can be signed.
#[derive(Clone, Copy, Debug, PartialEq, Eq, Structural)]
pub enum Algorithm {
    HS256,
    HS384,
    HS512,
    ES256,
    ES384,
    RS256,
    RS384,
    RS512,
    PS256,
    PS384,
    PS512,
    EdDSA,
}

impl Algorithm {
    /// The name under which headers carry the algorithm.
    pub open spec fn spec_name(self) -> Seq<char> {
        match self {
            Algorithm::HS256 => "HS256"@,
            Algorithm::HS384 => "HS384"@,
            Algorithm::HS512 => "HS512"@,
            Algorithm::ES256 => "ES256"@,
            Algorithm::ES384 => "ES384"@,
            Algorithm::RS256 => "RS256"@,
            Algorithm::RS384 => "RS384"@,
            Algorithm::RS512 => "RS512"@,
            Algorithm::PS256 => "PS256"@,
            Algorithm::PS384 => "PS384"@,
            Algorithm::PS512 => "PS512"@,
            Algorithm::EdDSA => "EdDSA"@,
        }
    }

    /// The name under which headers carry the algorithm.
    pub fn name(self) -> (name: &'static str)
        ensures
            name@ == self.spec_name(),
    {
        match self {
            Algorithm::HS256 => "HS256",
            Algorithm::HS384 => "HS384",
            Algorithm::HS512 => "HS512",
            Algorithm::ES256 => "ES256",
            Algorithm::ES384 => "ES384",
            Algorithm::RS256 => "RS256",
            Algorithm::RS384 => "RS384",
            Algorithm::RS512 => "RS512",
            Algorithm::PS256 => "PS256",
            Algorithm::PS384 => "PS384",
            Algorithm::PS512 => "PS512",
            Algorithm::EdDSA => "EdDSA",
        }
    }
}

/// The header of a token: the algorithm of its signature and, where one is
/// given, the id of the key.
#[derive(Debug, PartialEq, Eq)]
pub struct Header {
    pub alg: Algorithm,
    pub kid: Option<String>,
}

/// A `Header` as contracts see it.
pub struct HeaderView {
    pub alg: Algorithm,
    pub kid: Option<Seq<char>>,
}

impl View for Header {
    type V = HeaderView;

    open spec fn view(&self) -> HeaderView {
        HeaderView { alg: self.alg, kid: text_view(self.kid) }
    }
}

impl Clone for Header {
    fn clone(&self) -> (copy: Self)
        ensures
            copy == *self,
    {
        Header {
            alg: self.alg,
            kid: clone_text(&self.kid),
        }
    }
}

impl HeaderView {
    /// What the text of a token under this header says of its signature.
    pub open spec fn as_written(self) -> (Seq<char>, Option<Seq<char>>) {
        (self.alg.spec_name(), self.kid)
    }
}

/// No two algorithms have the same name.
pub proof fn lemma_algorithm_names_differ(first: Algorithm, second: Algorithm)
    ensures
        first.spec_name() == second.spec_name() ==> first == second,
{
    reveal_strlit("HS256");
    reveal_strlit("HS384");
    reveal_strlit("HS512");
    reveal_strlit("ES256");
    reveal_strlit("ES384");
    reveal_strlit("RS256");
    reveal_strlit("RS384");
    reveal_strlit("RS512");
    reveal_strlit("PS256");
    reveal_strlit("PS384");
    reveal_strlit("PS512");
    reveal_strlit("EdDSA");
    if first.spec_name() == second.spec_name() {
        assert(first.spec_name()[0] == second.spec_name()[0]);
        assert(first.spec_name()[1] == second.spec_name()[1]);
        assert(first.spec_name()[2] == second.spec_name()[2]);
    }
}

impl Header {
    /// A header for the given algorithm, without a key id.
    pub fn new(algorithm: Algorithm) -> (header: Header)
        ensures
            header@ == (HeaderView { alg: algorithm, kid: None }),
    {
        Header { alg: algorithm, kid: None }
    }

    /// The same header with the id of the key in it.
    pub fn with_key_id(self, kid: String) -> (header: Header)
        ensures
            header@ == (HeaderView { alg: self.alg, kid: Some(kid@) }),
    {
        Header { alg: self.alg, kid: Some(kid) }
    }
}

/// Why `jsonwebtoken` turned a call down, as far as this library tells its
/// reasons apart.
#[derive(Clone, Copy, Debug, PartialEq, Eq, Structural)]
pub enum JwtFailure {
    InvalidToken,
    InvalidSignature,
    InvalidAlgorithm,
    Base64,
    Json,
    Utf8,
    Other,
}

impl JwtFailure {
    /// The kind of error that the failure is when it comes from signing: the
    /// document could not be written, or the key could not sign.
    pub open spec fn signing_kind(self) -> ErrorKind {
        if self == JwtFailure::Json {
            ErrorKind::Serialization
        } else {
            ErrorKind::Signing
        }
    }

    /// The kind of error that the failure is when it comes from reading a
    /// token: its form is wrong, or its signature could not be confirmed.
    pub open spec fn reading_kind(self) -> ErrorKind {
        match self {
            JwtFailure::InvalidToken
            | JwtFailure::Base64
            | JwtFailure::Json
            | JwtFailure::Utf8 => ErrorKind::Malformed,
            JwtFailure::InvalidSignature | JwtFailure::InvalidAlgorithm | JwtFailure::Other => {
                ErrorKind::SignatureInvalid
            },
        }
    }

    /// The error that a failure to sign is reported as, with the message given.
    pub fn signing_error(self, message: String) -> (error: Error)
        ensures
            error.kind == self.signing_kind(),
            error.message == message,
    {
        let kind = match self {
            JwtFailure::Json => ErrorKind::Serialization,
            _ => ErrorKind::Signing,
        };
        Error { kind, message }
    }

    /// The error that a failure to read a token is reported as, with the
    /// message given.
    pub fn reading_error(self, message: String) -> (error: Error)
        ensures
            error.kind == self.reading_kind(),
            error.message == message,
    {
        let kind = match self {
            JwtFailure::InvalidToken
            | JwtFailure::Base64
            | JwtFailure::Json
            | JwtFailure::Utf8 => ErrorKind::Malformed,
            JwtFailure::InvalidSignature | JwtFailure::InvalidAlgorithm | JwtFailure::Other => {
                ErrorKind::SignatureInvalid
            },
        };
        Error { kind, message }
    }
}

/// The error for a token whose header names another algorithm than the one
/// expected.
pub open spec fn algorithm_differs() -> ErrorView {
    ErrorView { kind: ErrorKind::SignatureInvalid, message: "InvalidAlgorithm"@ }
}

/// `jsonwebtoken::encode` under a header with the named algorithm and the
/// given key id: where it succeeds, the header of the token's text names that
/// algorithm and that key id, and the text carries the entries of `document`.
/// Nothing is claimed of when it succeeds, nor of the signature.
#[verifier::external_body]
fn jwt_encode(
    algorithm: &str,
    kid: &Option<String>,
    document: &JsonObject,
    key: &jsonwebtoken::EncodingKey,
) -> (signed: std::result::Result<String, jsonwebtoken::errors::Error>)
    ensures
        signed is Ok ==> token_payload(signed.unwrap()@) == json_entries(*document),
        signed is Ok ==> token_header(signed.unwrap()@) == (algorithm@, text_view(*kid)),
{
    let mut header = jsonwebtoken::Header::new(algorithm.parse()?);
    header.kid = kid.clone();
    jsonwebtoken::encode(&header, document, key)
}

/// `jsonwebtoken::decode` into a JSON object, allowing the named algorithm
/// alone, with every check that the crate can make of the claims switched off:
/// none is required, and expiry, time before which not to accept, and audience
/// are not looked at. So the call checks the signature and the form, and does
/// not read the clock. Where it succeeds, the object holds the entries that
/// the token's text carries, and what comes back beside it is what the header
/// of the text says: the name of the algorithm and the key id. Nothing is
/// claimed of when it succeeds: that depends on the key.
#[verifier::external_body]
fn jwt_decode(raw: &str, key: &jsonwebtoken::DecodingKey, algorithm: &str) -> (read:
    std::result::Result<(String, Option<String>, JsonObject), jsonwebtoken::errors::Error>)
    ensures
        read is Ok ==> json_entries(read.unwrap().2) == token_payload(raw@),
        read is Ok ==> (read.unwrap().0@, text_view(read.unwrap().1)) == token_header(raw@),
{
    let mut validation = jsonwebtoken::Validation::new(algorithm.parse()?);
    validation.required_spec_claims.clear();
    validation.validate_exp = false;
    validation.validate_aud = false;
    let data = jsonwebtoken::decode::<JsonObject>(raw, key, &validation)?;
    Ok((format!("{:?}", data.header.alg), data.header.kid, data.claims))
}

/// `jsonwebtoken::errors::Error::kind`, with the kinds that this library tells
/// apart named one by one and the others left together. Nothing is claimed of
/// the answer.
#[verifier::external_body]
fn jwt_failure(error: &jsonwebtoken::errors::Error) -> (failure: JwtFailure) {
    match error.kind() {
        jsonwebtoken::errors::ErrorKind::InvalidToken => JwtFailure::InvalidToken,
        jsonwebtoken::errors::ErrorKind::InvalidSignature => JwtFailure::InvalidSignature,
        jsonwebtoken::errors::ErrorKind::InvalidAlgorithm => JwtFailure::InvalidAlgorithm,
        jsonwebtoken::errors::ErrorKind::Base64(_) => JwtFailure::Base64,
        jsonwebtoken::errors::ErrorKind::Json(_) => JwtFailure::Json,
        jsonwebtoken::errors::ErrorKind::Utf8(_) => JwtFailure::Utf8,
        _ => JwtFailure::Other,
    }
}

/// What a `jsonwebtoken::errors::Error` displays as: the message of the
/// failure in the crate's own words. Nothing is claimed of the text.
#[verifier::external_body]
fn jwt_error_text(error: &jsonwebtoken::errors::Error) -> (text: String) {
    error.to_string()
}

/// Signs claims and content as one token: the two are merged into one flat
/// document, and the document is signed under the header's algorithm.
pub fn create_token(
    encoding_key: &jsonwebtoken::EncodingKey,
    header: &Header,
    claims: JwtClaim,
    content: JsonObject,
) -> (token: Result<String>)
    ensures
        match token {
            Ok(raw) => token_payload(raw@) == merged_entries(
                claims@.entries(),
                json_entries(content),
            ) && token_header(raw@) == header@.as_written(),
            Err(e) => e.kind == ErrorKind::Serialization || e.kind == ErrorKind::Signing,
        },
{
    let document = claims.with_content(content).as_json_value()?;
    match jwt_encode(header.alg.name(), &header.kid, &document, encoding_key) {
        Ok(raw) => Ok(raw),
        Err(error) => Err(jwt_failure(&error).signing_error(jwt_error_text(&error))),
    }
}

/// Makes the header of a token that was read, from what its text names: the
/// algorithm has to be the one expected, and the key id is taken as it is. The
/// document is handed on untouched.
pub fn header_as_read(
    algorithm: Algorithm,
    name: &str,
    kid: Option<String>,
    document: JsonObject,
) -> (read: Result<(Header, JsonObject)>)
    ensures
        match read {
            Ok((header, same)) => name@ == algorithm.spec_name() && header@ == (HeaderView {
                alg: algorithm,
                kid: text_view(kid),
            }) && same == document,
            Err(e) => name@ != algorithm.spec_name() && e@ == algorithm_differs(),
        },
{
    if name.to_owned() == algorithm.name().to_owned() {
        Ok((Header { alg: algorithm, kid }, document))
    } else {
        Err(Error::new(ErrorKind::SignatureInvalid, "InvalidAlgorithm"))
    }
}

/// Checks a token's signature under the one algorithm that is expected, and
/// gives the header and the document that it carries. The claims are not
/// looked at here: whether the token is within its time is for the caller to
/// decide, on the claims that the document holds.
pub fn decode_token(
    decoding_key: &jsonwebtoken::DecodingKey,
    algorithm: Algorithm,
    raw: &str,
) -> (read: Result<(Header, JsonObject)>)
    ensures
        match read {
            Ok((header, document)) => header.alg == algorithm && header@.as_written()
                == token_header(raw@) && json_entries(document) == token_payload(raw@),
            Err(e) => e.kind == ErrorKind::SignatureInvalid || e.kind == ErrorKind::Malformed,
        },
{
    match jwt_decode(raw, decoding_key, algorithm.name()) {
        Ok((name, kid, document)) => header_as_read(algorithm, name.as_str(), kid, document),
        Err(error) => Err(jwt_failure(&error).reading_error(jwt_error_text(&error))),
    }
}

} // verus!
