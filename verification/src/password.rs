//! The hash under which a password is stored: HMAC-SHA-256 of the password,
//! keyed by the user's salt, in base64. Base64 and HMAC are the work of the
//! `base64`, `hmac` and `sha2` crates and are not proved here.

use vstd::prelude::*;
use vstd::utf8::encode_utf8;

use crate::auth::hasher::{base64_encode, base64_standard};

verus! {

/// The bytes that a padded standard base64 text stands for, if it is one.
pub uninterp spec fn base64_decoded(text: Seq<char>) -> Option<Seq<u8>>;

/// The HMAC-SHA-256 code of a message under a key.
pub uninterp spec fn hmac_sha256_code(key: Seq<u8>, message: Seq<u8>) -> Seq<u8>;

/// The length of an HMAC-SHA-256 code in bytes.
pub const CODE_LENGTH: usize = 32;

/// `base64::Engine::decode` of the standard engine: the bytes that the text
/// stands for, or the reason why it is no base64.
#[verifier::external_body]
fn base64_decode(text: &str) -> (bytes: Result<Vec<u8>, base64::DecodeError>)
    ensures
        bytes is Ok <==> base64_decoded(text@) is Some,
        bytes is Ok ==> bytes.unwrap()@ == base64_decoded(text@).unwrap(),
{
    base64::Engine::decode(&base64::engine::general_purpose::STANDARD, text)
}

/// `hmac::Hmac::<sha2::Sha256>` keyed by `new_from_slice`, fed by `update` and
/// closed by `finalize`: the code of the message under the key, 32 bytes long.
/// A key of any length is taken.
#[verifier::external_body]
fn hmac_sha256(key: &[u8], message: &[u8]) -> (code: Vec<u8>)
    ensures
        code@ == hmac_sha256_code(key@, message@),
        code@.len() == CODE_LENGTH,
{
    let mut mac = <hmac::Hmac<sha2::Sha256> as hmac::Mac>::new_from_slice(key).unwrap();
    hmac::Mac::update(&mut mac, message);
    hmac::Mac::finalize(mac).into_bytes().to_vec()
}

/// The stored form of a password under a salt: the base64 text of the code of
/// the password under the bytes that the salt stands for.
pub open spec fn password_hash(password: Seq<char>, salt: Seq<char>) -> Option<Seq<char>> {
    match base64_decoded(salt) {
        Some(key) => Some(base64_standard(hmac_sha256_code(key, encode_utf8(password)))),
        None => None,
    }
}

/// The hash under which a password is stored for a user with the given salt.
/// There is none where the salt is no base64.
pub fn hash_password(password: &str, salt: &str) -> (hashed: Option<String>)
    ensures
        hashed is Some <==> base64_decoded(salt@) is Some,
        hashed is Some ==> Some(hashed.unwrap()@) == password_hash(password@, salt@),
        hashed is None ==> password_hash(password@, salt@) is None,
{
    match base64_decode(salt) {
        Ok(key) => {
            let code = hmac_sha256(key.as_slice(), password.as_bytes());
            Some(base64_encode(code.as_slice()))
        },
        Err(_) => None,
    }
}

} // verus!
