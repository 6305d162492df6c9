//! The keys that a deployment is set up with.

use jsonwebtoken::{DecodingKey, EncodingKey};
use vstd::prelude::*;

verus! {

/// The keys of a deployment: the one that signs and, where tokens are also
/// checked, the one that verifies.
pub struct AuthConfig {
    pub encoding_key: EncodingKey,
    pub decoding_key: Option<DecodingKey>,
}

} // verus!
