//! Password digests. Hashing and verifying are the work of the `argon2`
//! crate, the salt comes from `rand`; what is proved here rests on the
//! contracts stated for them.

use crate::error::{AppError, ErrorKind};
use rand::Rng;
use vstd::prelude::*;
use vstd::utf8::encode_utf8;

verus! {

/// The error type of the `argon2` crate.
#[verifier::external_type_specification]
#[verifier::external_body]
pub struct ExHashError(argon2::Error);

/// The encoded hash that `argon2::hash_encoded` computes from a password and
/// a salt under `argon2::Config::default()`, or `None` where it refuses.
pub uninterp spec fn argon2_encoded(password: Seq<char>, salt: Seq<u8>) -> Option<Seq<char>>;

/// What `argon2::verify_encoded` finds for an encoded hash and a password, or
/// `None` where it refuses the encoded hash.
pub uninterp spec fn argon2_verdict(encoded: Seq<char>, password: Seq<char>) -> Option<bool>;

/// Whether a password is short enough to be hashed: at most 2^32 - 1 bytes.
pub open spec fn password_fits(password: Seq<char>) -> bool {
    encode_utf8(password).len() <= u32::MAX
}

/// A character takes at most four bytes.
pub proof fn lemma_encoded_length(text: Seq<char>)
    ensures
        encode_utf8(text).len() <= 4 * text.len(),
    decreases text.len(),
{
    if text.len() > 0 {
        lemma_encoded_length(text.drop_first());
    }
}

/// A password of at most 2^30 - 1 characters is short enough to be hashed.
pub proof fn lemma_modest_password_fits(password: Seq<char>)
    requires
        password.len() <= 0x3fff_ffff,
    ensures
        password_fits(password),
{
    lemma_encoded_length(password);
}

/// Calls `argon2::hash_encoded` on the password's bytes under the default
/// configuration. The contract names the result. It claims that the call
/// succeeds exactly for a password of at most 2^32 - 1 bytes, the one check
/// of the crate that a salt of 16 bytes and the default configuration can
/// fail, and that `argon2::verify_encoded` accepts the password for the
/// encoded hash that comes back, which holds the salt and every parameter with
/// which the hash is computed again.
#[verifier::external_body]
fn hash_encoded(password: &str, salt: &[u8; 16]) -> (result: Result<String, argon2::Error>)
    ensures
        match result {
            Ok(encoded) => argon2_encoded(password@, salt@) == Some(encoded@) && argon2_verdict(
                encoded@,
                password@,
            ) == Some(true),
            Err(_) => argon2_encoded(password@, salt@) is None,
        },
        result is Ok <==> password_fits(password@),
{
    argon2::hash_encoded(password.as_bytes(), salt, &argon2::Config::default())
}

/// Calls `argon2::verify_encoded` on the password's bytes. The contract
/// names the result.
#[verifier::external_body]
fn verify_encoded(encoded: &str, password: &str) -> (result: Result<bool, argon2::Error>)
    ensures
        match result {
            Ok(matches) => argon2_verdict(encoded@, password@) == Some(matches),
            Err(_) => argon2_verdict(encoded@, password@) is None,
        },
{
    argon2::verify_encoded(encoded, password.as_bytes())
}

/// The description that `argon2::Error` gives of itself. Nothing is claimed
/// of the text.
#[verifier::external_body]
fn hash_error_text(error: &argon2::Error) -> (text: String) {
    error.to_string()
}

/// Sixteen bytes from `rand::thread_rng()`. Nothing is claimed of them.
#[verifier::external_body]
pub(crate) fn random_block() -> (block: [u8; 16]) {
    rand::thread_rng().gen::<[u8; 16]>()
}

/// The digest of a password under a fresh random salt. The digest is one
/// that `verify_password` accepts for this password.
pub fn hash_password(password: &str) -> (result: Result<String, AppError>)
    ensures
        match result {
            Ok(digest) => {
                &&& password_fits(password@)
                &&& argon2_verdict(digest@, password@) == Some(true)
                &&& exists|salt: Seq<u8>| argon2_encoded(password@, salt) == Some(digest@)
            },
            Err(error) => !password_fits(password@) && error@.kind == ErrorKind::BackendError,
        },
{
    let salt = random_block();
    match hash_encoded(password, &salt) {
        Ok(digest) => Ok(digest),
        Err(error) => Err(AppError::BackendError(hash_error_text(&error))),
    }
}

/// Whether the password is the one from which the digest was made. A digest
/// that cannot be read is a backend error.
pub fn verify_password(digest: &str, password: &str) -> (result: Result<bool, AppError>)
    ensures
        match result {
            Ok(matches) => argon2_verdict(digest@, password@) == Some(matches),
            Err(error) => argon2_verdict(digest@, password@) is None && error@.kind
                == ErrorKind::BackendError,
        },
{
    match verify_encoded(digest, password) {
        Ok(matches) => Ok(matches),
        Err(error) => Err(AppError::BackendError(hash_error_text(&error))),
    }
}

} // verus!
