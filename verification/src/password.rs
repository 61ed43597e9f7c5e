//! Password hashing with Argon2 (default parameters, random salt, PHC string
//! format).
use vstd::prelude::*;
use vstd::string::StringSliceAdditionalSpecFns;

use argon2::password_hash::{PasswordHasher, PasswordVerifier, SaltString};

use crate::error::CoreError;
use crate::tokens::fill_random;

verus! {

#[verifier::external_type_specification]
#[verifier::external_body]
pub struct ExSaltString(argon2::password_hash::SaltString);

/// Whether `password_hash::PasswordHash::new` accepts `hash` as a PHC string.
pub uninterp spec fn phc_parses(hash: Seq<char>) -> bool;

/// Whether `Argon2::default().verify_password` accepts the UTF-8 bytes of
/// `password` against the PHC string `hash`.
pub uninterp spec fn argon2_verifies(hash: Seq<char>, password: Seq<char>) -> bool;

/// `hash` is a PHC string that Argon2 verifies `password` against.
pub open spec fn is_password_hash_of(hash: Seq<char>, password: Seq<char>) -> bool {
    phc_parses(hash) && argon2_verifies(hash, password)
}

/// Number of random bytes in a salt (`Salt::RECOMMENDED_LENGTH`).
pub const SALT_BYTES: usize = 16;

/// Calls `SaltString::encode_b64` on `bytes`. It fails only when the B64 text
/// would not fit in 64 characters, which 16 bytes (22 characters) cannot
/// reach, so `requires` fixes that length; nothing is claimed of the salt.
#[verifier::external_body]
fn salt_from_bytes(bytes: &[u8]) -> SaltString
    requires
        bytes@.len() == SALT_BYTES,
{
    SaltString::encode_b64(bytes).unwrap()
}

/// Calls `Argon2::default().hash_password` on the UTF-8 bytes of `password`
/// and `salt`, and writes the result as a PHC string. The contract claims what
/// the password-hash crate's design guarantees: the string parses again, and
/// verifying the same password against it succeeds (verification recomputes
/// the hash with the algorithm, version, parameters and salt the string
/// records). The one error `hash_password` can raise here, a password longer
/// than `u32::MAX` bytes, is excluded by `requires`.
#[verifier::external_body]
fn argon2_hash(password: &str, salt: &SaltString) -> (r: String)
    requires
        password.spec_bytes().len() <= 0xFFFF_FFFF,
    ensures
        phc_parses(r@),
        argon2_verifies(r@, password@),
{
    argon2::Argon2::default().hash_password(password.as_bytes(), salt).unwrap().to_string()
}

/// Calls `PasswordHash::new` and reports whether it accepts `hash`.
#[verifier::external_body]
fn phc_string_parses(hash: &str) -> (r: bool)
    ensures
        r == phc_parses(hash@),
{
    argon2::password_hash::PasswordHash::new(hash).is_ok()
}

/// Parses `hash` with `PasswordHash::new` (which `requires` says succeeds) and
/// calls `Argon2::default().verify_password` on the UTF-8 bytes of `password`;
/// the result is named `argon2_verifies`.
#[verifier::external_body]
fn argon2_verify(hash: &str, password: &str) -> (r: bool)
    requires
        phc_parses(hash@),
    ensures
        r == argon2_verifies(hash@, password@),
{
    let parsed = argon2::password_hash::PasswordHash::new(hash).unwrap();
    argon2::Argon2::default().verify_password(password.as_bytes(), &parsed).is_ok()
}

/// Hashes a password with Argon2 and a fresh random salt; the result is a PHC
/// string (`$argon2id$v=19$...`) that the same password verifies against.
/// When the operating system cannot supply random bytes for the salt, the
/// failure is reported as an internal server error with its text.
pub fn hash_password(password: &str) -> (r: Result<String, CoreError>)
    requires
        password.spec_bytes().len() <= 0xFFFF_FFFF,
    ensures
        r matches Ok(h) ==> is_password_hash_of(h@, password@),
        r matches Err(e) ==> e is InternalServerError,
{
    let mut bytes: Vec<u8> = vec![0u8; SALT_BYTES];
    match fill_random(&mut bytes) {
        Ok(()) => {
            let salt = salt_from_bytes(bytes.as_slice());
            Ok(argon2_hash(password, &salt))
        },
        Err(e) => Err(CoreError::InternalServerError(e)),
    }
}

/// Whether `password` matches the stored PHC string `hash`, which must parse.
pub fn verify_password(hash: &str, password: &str) -> (r: bool)
    requires
        phc_parses(hash@),
    ensures
        r == argon2_verifies(hash@, password@),
{
    argon2_verify(hash, password)
}

/// Like `verify_password`, for a stored hash that may not parse: `None` then.
pub fn check_password(hash: &str, password: &str) -> (r: Option<bool>)
    ensures
        r is None <==> !phc_parses(hash@),
        r matches Some(b) ==> b == argon2_verifies(hash@, password@),
{
    if phc_string_parses(hash) {
        Some(verify_password(hash, password))
    } else {
        None
    }
}

/// A password verifies against its own hash: whatever `hash_password` returned
/// for a password meets the precondition of `verify_password`, and verifying
/// that password against it gives `true`.
pub proof fn lemma_password_round_trip(hash: Seq<char>, password: Seq<char>)
    requires
        is_password_hash_of(hash, password),
    ensures
        phc_parses(hash),
        argon2_verifies(hash, password),
{
}

} // verus!
