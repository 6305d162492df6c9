//! The hash that binds an identity token to an access token.
//!
//! The signed text of the access token is written in base64, that text is
//! written in base64 once more, the result is digested with SHA-256, and the
//! first half of the digest is written in base64. Base64 and SHA-256 are the
//! work of the `base64` and `sha2` crates and are not proved here.

use vstd::prelude::*;
use vstd::utf8::{encode_utf8, is_ascii_chars, is_ascii_chars_encode_utf8};

use crate::auth::errors::{Error, ErrorKind, ErrorView, Result};

verus! {

/// The standard base64 text, with padding, of a sequence of bytes.
pub uninterp spec fn base64_standard(bytes: Seq<u8>) -> Seq<char>;

/// The SHA-256 digest of a sequence of bytes.
pub uninterp spec fn sha256_digest(bytes: Seq<u8>) -> Seq<u8>;

/// The number of bytes of a digest that the hash keeps.
pub const HALF_DIGEST: usize = 16;

/// The length of the hash: the base64 text of half a digest.
pub const HASH_LENGTH: usize = 24;

/// The length of the padded base64 text of `len` bytes: four characters for
/// every three bytes or part of three.
pub open spec fn encoded_len(len: nat) -> nat {
    4 * ((len + 2) / 3)
}

/// Whether a text is short enough for both of its base64 texts to have a length
/// that `usize` holds.
pub open spec fn hashable(raw: Seq<char>) -> bool {
    encoded_len(encoded_len(encode_utf8(raw).len())) <= usize::MAX
}

/// The hash that binds an identity token to the access token with the signed
/// text `raw`.
pub open spec fn binding_hash(raw: Seq<char>) -> Seq<char> {
    let once = base64_standard(encode_utf8(raw));
    let twice = base64_standard(encode_utf8(once));
    base64_standard(sha256_digest(encode_utf8(twice)).take(HALF_DIGEST as int))
}

/// The error for a text that is too long to be hashed.
pub open spec fn too_long() -> ErrorView {
    ErrorView { kind: ErrorKind::Encoding, message: "access token is too long to hash"@ }
}

/// What hashing the signed text `raw` gives: its hash, or the error where the
/// text is too long.
pub open spec fn hashed(raw: Seq<char>) -> std::result::Result<Seq<char>, ErrorView> {
    if hashable(raw) {
        Ok(binding_hash(raw))
    } else {
        Err(too_long())
    }
}

/// An outcome of hashing as contracts see it.
pub open spec fn outcome_view(outcome: Result<String>) -> std::result::Result<
    Seq<char>,
    ErrorView,
> {
    match outcome {
        Ok(hash) => Ok(hash@),
        Err(e) => Err(e@),
    }
}

/// Whether a base64 text ends in as many pad characters as `len` bytes leave:
/// two where one byte is over after the groups of three, one where two are.
pub open spec fn padded_for(text: Seq<char>, len: nat) -> bool {
    &&& len % 3 == 1 ==> text.len() >= 2 && text[text.len() - 1] == '=' && text[text.len() - 2]
        == '='
    &&& len % 3 == 2 ==> text.len() >= 1 && text[text.len() - 1] == '='
}

/// `base64::Engine::encode` of the standard engine: the padded base64 text of
/// the input, which is ASCII, four characters long for every three bytes or
/// part of three, and ends in the pad characters that the last part calls for.
/// The call panics where that length does not fit `usize`, so such inputs are
/// left out.
#[verifier::external_body]
pub(crate) fn base64_encode(input: &[u8]) -> (text: String)
    requires
        encoded_len(input@.len()) <= usize::MAX,
    ensures
        text@ == base64_standard(input@),
        text@.len() == encoded_len(input@.len()),
        is_ascii_chars(text@),
        padded_for(text@, input@.len()),
{
    base64::Engine::encode(&base64::engine::general_purpose::STANDARD, input)
}

/// `sha2::Sha256::digest`: the SHA-256 digest of the input, 32 bytes long.
#[verifier::external_body]
fn sha256(input: &[u8]) -> (digest: Vec<u8>)
    ensures
        digest@ == sha256_digest(input@),
        digest@.len() == 32,
{
    <sha2::Sha256 as sha2::Digest>::digest(input).to_vec()
}

/// The length of the padded base64 text of `len` bytes, if `usize` holds it.
pub fn encoded_size(len: usize) -> (size: Option<usize>)
    ensures
        match size {
            Some(s) => s == encoded_len(len as nat),
            None => encoded_len(len as nat) > usize::MAX,
        },
{
    let groups: usize = if len % 3 == 0 {
        len / 3
    } else {
        len / 3 + 1
    };
    assert(groups == (len + 2) / 3);
    groups.checked_mul(4)
}

/// A base64 text is no shorter than what it encodes, and the longer of two
/// inputs has the longer text.
pub proof fn lemma_encoded_len_grows(shorter: nat, longer: nat)
    requires
        shorter <= longer,
    ensures
        encoded_len(shorter) <= encoded_len(longer),
        shorter <= encoded_len(shorter),
{
}

/// Hashing is a function of the text alone: the same text gives the same
/// outcome, whenever and wherever it is hashed.
pub proof fn lemma_hash_is_deterministic(first: Seq<char>, second: Seq<char>)
    requires
        first == second,
    ensures
        hashed(first) == hashed(second),
        binding_hash(first) == binding_hash(second),
{
}

/// The hash that binds an identity token to the access token with the signed
/// text `raw`.
pub fn access_token_hash(raw: &str) -> (hash: Result<String>)
    ensures
        outcome_view(hash) == hashed(raw@),
        hash is Ok ==> hash.unwrap()@.len() == HASH_LENGTH,
        hash is Ok ==> is_ascii_chars(hash.unwrap()@),
        hash is Ok ==> hash.unwrap()@[HASH_LENGTH - 1] == '=' && hash.unwrap()@[HASH_LENGTH - 2]
            == '=',
{
    let bytes = raw.as_bytes();
    let ghost len = bytes@.len();
    proof {
        lemma_encoded_len_grows(len, encoded_len(len));
    }
    let once_size = match encoded_size(bytes.len()) {
        Some(size) => size,
        None => {
            return Err(Error::new(ErrorKind::Encoding, "access token is too long to hash"));
        },
    };
    if encoded_size(once_size).is_none() {
        return Err(Error::new(ErrorKind::Encoding, "access token is too long to hash"));
    }
    let once = base64_encode(bytes);
    proof {
        is_ascii_chars_encode_utf8(once@);
    }
    let twice = base64_encode(once.as_str().as_bytes());
    let mut digest = sha256(twice.as_str().as_bytes());
    digest.truncate(HALF_DIGEST);
    let hash = base64_encode(digest.as_slice());
    Ok(hash)
}

} // verus!
