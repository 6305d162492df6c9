//! The types of other crates that pass through this library unopened.

use jsonwebtoken::errors::Error as JwtError;
use serde_json::Error as JsonError;
use vstd::prelude::*;

verus! {

/// `serde_json::Map`: a JSON object. What one holds is named in `json`.
#[verifier::external_type_specification]
#[verifier::external_body]
#[verifier::reject_recursive_types(K)]
#[verifier::reject_recursive_types(V)]
pub struct ExJsonMap<K, V>(serde_json::Map<K, V>);

/// `serde_json::Value`: a JSON value, here only as what a JSON object holds.
#[verifier::external_type_specification]
#[verifier::external_body]
pub struct ExJsonValue(serde_json::Value);

/// `serde_json::Error`: why a JSON text could not be written or read.
#[verifier::external_type_specification]
#[verifier::external_body]
pub struct ExJsonError(JsonError);

/// `base64::DecodeError`: why a text is no base64.
#[verifier::external_type_specification]
#[verifier::external_body]
pub struct ExBase64DecodeError(base64::DecodeError);

/// `jsonwebtoken::EncodingKey`: a key to sign with.
#[verifier::external_type_specification]
#[verifier::external_body]
pub struct ExEncodingKey(jsonwebtoken::EncodingKey);

/// `jsonwebtoken::EncodingKey::clone`: another key. Nothing is claimed of it;
/// keys are opaque here.
pub assume_specification[ <jsonwebtoken::EncodingKey as Clone>::clone ](
    key: &jsonwebtoken::EncodingKey,
) -> jsonwebtoken::EncodingKey
;

/// `jsonwebtoken::DecodingKey`: a key to check signatures with.
#[verifier::external_type_specification]
#[verifier::external_body]
pub struct ExDecodingKey(jsonwebtoken::DecodingKey);

/// `jsonwebtoken::errors::Error`: why signing or reading a token failed.
#[verifier::external_type_specification]
#[verifier::external_body]
pub struct ExJwtError(JwtError);

} // verus!
