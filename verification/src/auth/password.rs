//! Password hashing with Argon2id (through the `argon2` crate) and
//! verification of a plaintext against a stored PHC hash string.

use vstd::prelude::*;

use argon2::password_hash::{PasswordHasher, PasswordVerifier};

use crate::error::{AuthUserError, ServirError};

verus! {

/// Whether `argon2::password_hash::PasswordHash::new` parses `hash` as a PHC
/// string.
pub uninterp spec fn phc_well_formed(hash: Seq<char>) -> bool;

/// Whether `Argon2::verify_password` accepts `plaintext` against the parsed
/// PHC string `hash` (re-hashing with the hash's own algorithm, version,
/// parameters and salt, and comparing).
pub uninterp spec fn argon2_accepts(plaintext: Seq<char>, hash: Seq<char>) -> bool;

/// The PHC string `Argon2::default().hash_password` produces for
/// `plaintext` and the B64 salt `salt`; `None` when the salt is not valid
/// B64 or hashing fails.
pub uninterp spec fn argon2_phc_hash(plaintext: Seq<char>, salt: Seq<char>) -> Option<Seq<char>>;

/// A fresh random salt in B64, from `SaltString::generate` with the OS
/// random number generator. Nothing is stated of the value.
#[verifier::external_body]
fn fresh_salt() -> (salt: String) {
    argon2::password_hash::SaltString::generate(&mut argon2::password_hash::rand_core::OsRng)
        .as_str()
        .to_string()
}

/// Hashes `plaintext` with `Argon2::default().hash_password` under `salt`
/// and renders the PHC string. Claims, as the crate's source and docs show:
/// the result is the named hash, it parses as PHC, and verification of the
/// same plaintext against it succeeds. The error text is not stated.
#[verifier::external_body]
fn argon2_hash(plaintext: &str, salt: &str) -> (res: Result<String, String>)
    ensures
        res is Ok <==> argon2_phc_hash(plaintext@, salt@) is Some,
        res matches Ok(h) ==> argon2_phc_hash(plaintext@, salt@) == Some(h@) && phc_well_formed(
            h@,
        ) && argon2_accepts(plaintext@, h@),
{
    let salt = argon2::password_hash::Salt::from_b64(salt).map_err(|e| e.to_string())?;
    argon2::Argon2::default()
        .hash_password(plaintext.as_bytes(), salt)
        .map(|h| h.to_string())
        .map_err(|e| e.to_string())
}

/// Parses `hash` with `PasswordHash::new`; fails exactly when it is not a
/// PHC string. The error text is not stated.
#[verifier::external_body]
fn parse_phc(hash: &str) -> (res: Result<(), String>)
    ensures
        res is Ok <==> phc_well_formed(hash@),
{
    argon2::password_hash::PasswordHash::new(hash).map(|_| ()).map_err(|e| e.to_string())
}

/// Checks `plaintext` against the PHC string `hash` with
/// `Argon2::default().verify_password`; true exactly when it succeeds.
#[verifier::external_body]
fn argon2_verify(plaintext: &str, hash: &str) -> (ok: bool)
    requires
        phc_well_formed(hash@),
    ensures
        ok == argon2_accepts(plaintext@, hash@),
{
    match argon2::password_hash::PasswordHash::new(hash) {
        Ok(parsed) => argon2::Argon2::default().verify_password(plaintext.as_bytes(), &parsed).is_ok(),
        Err(_) => false,
    }
}

/// `hash` is an Argon2 PHC hash of `plaintext`: it parses, the verifier
/// accepts `plaintext` against it, and it is the hash of `plaintext` under
/// some salt.
pub open spec fn hashes_password(hash: Seq<char>, plaintext: Seq<char>) -> bool {
    &&& phc_well_formed(hash)
    &&& argon2_accepts(plaintext, hash)
    &&& exists|salt: Seq<char>| #[trigger] argon2_phc_hash(plaintext, salt) == Some(hash)
}

/// What [`verify_password`] answers for `plaintext` against `hash`.
pub open spec fn password_check(
    plaintext: Seq<char>,
    hash: Seq<char>,
    res: Result<bool, ServirError>,
) -> bool {
    if phc_well_formed(hash) {
        res == Ok::<bool, ServirError>(argon2_accepts(plaintext, hash))
    } else {
        res matches Err(ServirError::AuthUser(AuthUserError::PasswordHashFailed { .. }))
    }
}

/// Hashes `plaintext` with Argon2id under the B64 salt `salt` and returns
/// the PHC string; a salt that is not valid B64, or a hashing failure, is
/// `PASSWORD_HASH_FAILED`.
pub fn hash_password_with_salt(plaintext: &str, salt: &str) -> (res: Result<String, ServirError>)
    ensures
        match argon2_phc_hash(plaintext@, salt@) {
            Some(h) => res matches Ok(r) && r@ == h && hashes_password(h, plaintext@),
            None => res matches Err(ServirError::AuthUser(AuthUserError::PasswordHashFailed { .. })),
        },
{
    match argon2_hash(plaintext, salt) {
        Ok(h) => Ok(h),
        Err(e) => Err(AuthUserError::password_hash_failed(e.as_str())),
    }
}

/// Hashes `plaintext` with Argon2id and a fresh random salt and returns the
/// PHC string; a hashing failure is `PASSWORD_HASH_FAILED`.
pub fn hash_password(plaintext: &str) -> (res: Result<String, ServirError>)
    ensures
        res matches Ok(h) ==> hashes_password(h@, plaintext@),
        res matches Err(e) ==> e matches ServirError::AuthUser(
            AuthUserError::PasswordHashFailed { .. },
        ) && exists|salt: Seq<char>| #[trigger] argon2_phc_hash(plaintext@, salt) is None,
{
    let salt = fresh_salt();
    hash_password_with_salt(plaintext, salt.as_str())
}

/// Checks a plaintext password against an Argon2 PHC hash: `Ok(true)` when
/// it matches, `Ok(false)` when not, `PASSWORD_HASH_FAILED` when the hash
/// string is malformed.
pub fn verify_password(plaintext: &str, hash: &str) -> (res: Result<bool, ServirError>)
    ensures
        password_check(plaintext@, hash@, res),
{
    match parse_phc(hash) {
        Ok(()) => Ok(argon2_verify(plaintext, hash)),
        Err(e) => Err(AuthUserError::password_hash_failed(e.as_str())),
    }
}

/// A password verifies against any hash that [`hash_password`] produced for
/// it.
pub proof fn hashed_password_verifies(
    plaintext: Seq<char>,
    hash: Seq<char>,
    res: Result<bool, ServirError>,
)
    requires
        hashes_password(hash, plaintext),
        password_check(plaintext, hash, res),
    ensures
        res == Ok::<bool, ServirError>(true),
{
}

} // verus!
