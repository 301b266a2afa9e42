//! One-way salted password hashing and verification, through the argon2
//! crate. The salt is drawn fresh on every hashing call, so nothing is said
//! about the hash string itself; what verification returns for a password and
//! a hash is a function of the two alone, and is given a name.

use vstd::prelude::*;
use crate::errors::AppError;
use argon2::PasswordHasher;
use argon2::PasswordVerifier;

verus! {

/// Whether argon2 verification accepts `password` against `hash`.
pub uninterp spec fn verifies(password: Seq<char>, hash: Seq<char>) -> bool;

/// Whether `hash` is a well-formed PHC hash string that
/// `argon2::PasswordHash::new` accepts.
pub uninterp spec fn hash_parseable(hash: Seq<char>) -> bool;

/// Relies on `argon2::Argon2::hash_password` with a fresh random salt: the
/// salt makes the hash string unpredictable, but verification accepts the
/// hashed password against it and, argon2 being a password hash, rejects
/// every other password.
#[verifier::external_body]
pub fn hash_password(password: &str) -> (r: Result<String, AppError>)
    ensures
        match r {
            Ok(h) => {
                &&& verifies(password@, h@)
                &&& forall|other: Seq<char>| other != password@ ==> !verifies(other, h@)
                &&& hash_parseable(h@)
                &&& h@.len() > 0
            },
            Err(e) => e == AppError::InternalServerError,
        },
{
    match argon2::Argon2::default().hash_password(password.as_bytes()) {
        Ok(h) => Ok(h.to_string()),
        Err(_) => Err(AppError::InternalServerError),
    }
}

/// Relies on `argon2::Argon2::verify_password` (after
/// `argon2::PasswordHash::new` on the hash string): deterministic in the
/// password and the hash; a hash string that does not parse is the store
/// invariant violation `InternalServerError`.
#[verifier::external_body]
pub fn verify_password(password: &str, hashed_password: &str) -> (r: Result<bool, AppError>)
    ensures
        match r {
            Ok(b) => hash_parseable(hashed_password@) && b == verifies(
                password@,
                hashed_password@,
            ),
            Err(e) => !hash_parseable(hashed_password@) && e == AppError::InternalServerError,
        },
{
    match argon2::PasswordHash::new(hashed_password) {
        Ok(parsed) => Ok(
            argon2::Argon2::default().verify_password(password.as_bytes(), &parsed).is_ok(),
        ),
        Err(_) => Err(AppError::InternalServerError),
    }
}

} // verus!
