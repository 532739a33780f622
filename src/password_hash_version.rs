//! Versioned password hashing: a version tag selects the algorithm that made
//! a stored hash, so that old hashes keep verifying after a new default.
use argon2::password_hash::{PasswordHasher, PasswordVerifier};
use vstd::prelude::*;

verus! {

/// The longest password, in characters, that hashing always accepts.
pub const MAX_PASSWORD_CHARS: usize = 0x3FFF_FFFF;

/// The version that new registrations are hashed with.
pub const CUR_HASH_VER: i32 = 1;

/// Whether `hash` is a hash string made from `password`: it parses, and
/// the password verifies against it.
pub open spec fn hash_made_from(password: Seq<char>, hash: Seq<char>) -> bool {
    phc_parses(hash) && argon2_matches(password, hash)
}

/// What checking `password` against `hash` under `version` yields: `None`
/// where the check is refused (unregistered version, unparsable hash), else
/// the verdict.
pub open spec fn pw_verdict(password: Seq<char>, hash: Seq<char>, version: i32) -> Option<bool> {
    if !is_registered_ver(version) || !phc_parses(hash) {
        None
    } else {
        Some(argon2_matches(password, hash))
    }
}

/// Whether a version tag names a registered algorithm.
pub open spec fn is_registered_ver(version: i32) -> bool {
    version == 1
}

/// Whether `phc` parses as a PHC hash string (`PasswordHash::new`).
pub uninterp spec fn phc_parses(phc: Seq<char>) -> bool;

/// Whether argon2 recomputes the hash stored in `phc` from `password`
/// (`PasswordVerifier::verify_password`).
pub uninterp spec fn argon2_matches(password: Seq<char>, phc: Seq<char>) -> bool;

#[verifier::external_type_specification]
#[verifier::external_body]
pub struct ExHashError(argon2::password_hash::Error);

/// Why a password could not be hashed or checked.
#[derive(Debug)]
pub enum PWHashError {
    InvalidHashVer,
    HashingError { err: argon2::password_hash::Error },
    HashParseError { err: argon2::password_hash::Error },
}

/// Relies on `SaltString::generate` with `rand::thread_rng`, a fresh salt of
/// 16 random bytes, and on `PasswordHasher::hash_password` of
/// `Argon2::default()` with that salt: the PHC string of the hash, which
/// parses and which the same password verifies against (the verifier
/// recomputes the hash with the stored salt and parameters). With the
/// default parameters and such a salt, the only refusal left is a password
/// of more than `0xFFFF_FFFF` bytes, which a password of at most
/// `0x3FFF_FFFF` characters cannot reach.
#[verifier::external_body]
fn argon2_hash_salted(password: &str) -> (r: Result<String, argon2::password_hash::Error>)
    ensures
        r matches Ok(h) ==> phc_parses(h@) && argon2_matches(password@, h@),
        password@.len() <= MAX_PASSWORD_CHARS ==> r is Ok,
{
    let salt = argon2::password_hash::SaltString::generate(&mut rand::thread_rng());
    let argon2 = argon2::Argon2::default();
    match argon2.hash_password(password.as_bytes(), salt.as_ref()) {
        Ok(hash) => Ok(hash.to_string()),
        Err(err) => Err(err),
    }
}

/// Relies on `PasswordHash::new`, which parses the PHC string, and on
/// `PasswordVerifier::verify_password` of `Argon2::default()` on the parsed
/// hash: `Err` exactly when the string does not parse, else whether the
/// password matches.
#[verifier::external_body]
fn argon2_verify(password: &str, phc: &str) -> (r: Result<bool, argon2::password_hash::Error>)
    ensures
        r.is_err() <==> !phc_parses(phc@),
        r matches Ok(b) ==> b == argon2_matches(password@, phc@),
{
    let parsed = argon2::password_hash::PasswordHash::new(phc)?;
    let argon2 = argon2::Argon2::default();
    Ok(argon2.verify_password(password.as_bytes(), &parsed).is_ok())
}

fn hash_pw_ver_1(password: &str) -> (r: Result<String, PWHashError>)
    ensures
        r matches Ok(h) ==> phc_parses(h@) && argon2_matches(password@, h@),
        password@.len() <= MAX_PASSWORD_CHARS ==> r is Ok,
        r.is_err() ==> r matches Err(PWHashError::HashingError { .. }),
{
    match argon2_hash_salted(password) {
        Ok(hash) => Ok(hash),
        Err(err) => Err(PWHashError::HashingError { err }),
    }
}

fn validate_pw_ver_1(password: &str, password_hash: &str) -> (r: Result<bool, PWHashError>)
    ensures
        r matches Err(PWHashError::HashParseError { .. }) <==> !phc_parses(password_hash@),
        r.is_err() ==> r matches Err(PWHashError::HashParseError { .. }),
        r matches Ok(b) ==> b == argon2_matches(password@, password_hash@),
{
    match argon2_verify(password, password_hash) {
        Ok(b) => Ok(b),
        Err(err) => Err(PWHashError::HashParseError { err }),
    }
}

/// Hashes a password with the current version's algorithm.
pub fn hash_pw(username: &str, password: &str) -> (r: Result<String, PWHashError>)
    ensures
        r matches Ok(h) ==> hash_made_from(password@, h@),
        password@.len() <= MAX_PASSWORD_CHARS ==> r is Ok,
        r.is_err() ==> r matches Err(PWHashError::HashingError { .. }),
{
    hash_pw_ver(username, password, CUR_HASH_VER)
}

/// The version that new hashes are made with.
pub fn get_pw_ver() -> (r: i32)
    ensures
        r == CUR_HASH_VER,
        is_registered_ver(r),
{
    CUR_HASH_VER
}

/// Hashes a password with the algorithm of `version`; an unregistered
/// version is refused.
pub fn hash_pw_ver(_username: &str, password: &str, version: i32) -> (r: Result<
    String,
    PWHashError,
>)
    ensures
        !is_registered_ver(version) <==> r matches Err(PWHashError::InvalidHashVer),
        r matches Ok(h) ==> hash_made_from(password@, h@),
        is_registered_ver(version) && password@.len() <= MAX_PASSWORD_CHARS ==> r is Ok,
        is_registered_ver(version) && r.is_err() ==> r matches Err(
            PWHashError::HashingError { .. },
        ),
{
    match version {
        1 => hash_pw_ver_1(password),
        _ => Err(PWHashError::InvalidHashVer),
    }
}

/// Checks a password against a hash made with the algorithm of `version`.
/// An unregistered version is refused and never falls back to another.
pub fn validate_pw_ver(_username: &str, password: &str, password_hash: &str, version: i32) -> (r:
    Result<bool, PWHashError>)
    ensures
        !is_registered_ver(version) <==> r matches Err(PWHashError::InvalidHashVer),
        is_registered_ver(version) ==> (r matches Err(PWHashError::HashParseError { .. })
            <==> !phc_parses(password_hash@)),
        is_registered_ver(version) && r.is_err() ==> r matches Err(
            PWHashError::HashParseError { .. },
        ),
        r matches Ok(b) ==> pw_verdict(password@, password_hash@, version) == Some(b),
        r.is_err() ==> pw_verdict(password@, password_hash@, version) is None,
{
    match version {
        1 => validate_pw_ver_1(password, password_hash),
        _ => Err(PWHashError::InvalidHashVer),
    }
}

/// A hash made under a registered version verifies under that version; the
/// same hash checked under an unregistered version is refused, never
/// verified.
pub proof fn lemma_hash_round_trip(password: Seq<char>, hash: Seq<char>, version: i32, other: i32)
    requires
        is_registered_ver(version),
        !is_registered_ver(other),
        hash_made_from(password, hash),
    ensures
        pw_verdict(password, hash, version) == Some(true),
        pw_verdict(password, hash, other) == Option::<bool>::None,
{
}

} // verus!
