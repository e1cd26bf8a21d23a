//! Password hashes for login credentials.

use crate::errors::ServiceError;
use vstd::prelude::*;

verus! {

#[verifier::external_type_specification]
#[verifier::external_body]
pub struct ExPasswordHashError(argon2::password_hash::Error);

/// Whether `hash` is a password hash in PHC string format that Argon2, with
/// the parameters and salt written in it, computes for `password`.
pub uninterp spec fn password_matches(hash: Seq<char>, password: Seq<char>) -> bool;

/// Draws a salt with `SaltString::generate` from the operating system's
/// random source, calls `Argon2::hash_password` with the default parameters
/// and writes the result as a PHC string. Which string comes back is not
/// determined, nor that one does; every one that does matches the password.
#[verifier::external_body]
fn argon2_hash(password: &str) -> (r: Result<String, argon2::password_hash::Error>)
    ensures
        r matches Ok(hash) ==> password_matches(hash@, password@),
{
    let salt = argon2::password_hash::SaltString::generate(
        &mut argon2::password_hash::rand_core::OsRng,
    );
    let hasher = argon2::Argon2::default();
    let hash = argon2::PasswordHasher::hash_password(&hasher, password.as_bytes(), &salt)?;
    Ok(hash.to_string())
}

/// Parses `hash` with `PasswordHash::new` and calls `Argon2::verify_password`
/// on it. The outcome is a function of the hash and the password alone.
#[verifier::external_body]
fn argon2_verify(hash: &str, password: &str) -> (r: Result<(), argon2::password_hash::Error>)
    ensures
        r is Ok <==> password_matches(hash@, password@),
{
    let parsed = argon2::PasswordHash::new(hash)?;
    argon2::PasswordVerifier::verify_password(
        &argon2::Argon2::default(),
        password.as_bytes(),
        &parsed,
    )
}

/// What `hash_password` makes of the outcome of hashing.
pub fn hashed(outcome: Result<String, argon2::password_hash::Error>) -> (r: Result<
    String,
    ServiceError,
>)
    ensures
        match outcome {
            Ok(hash) => r == Ok::<String, ServiceError>(hash),
            Err(_) => r == Err::<String, ServiceError>(ServiceError::Hashing),
        },
{
    match outcome {
        Ok(hash) => Ok(hash),
        Err(_) => Err(ServiceError::Hashing),
    }
}

/// Hashes a password under a fresh random salt. The hash that comes back
/// matches the password; where hashing fails, `Hashing` comes back.
pub fn hash_password(password: &str) -> (r: Result<String, ServiceError>)
    ensures
        match r {
            Ok(hash) => password_matches(hash@, password@),
            Err(e) => e == ServiceError::Hashing,
        },
{
    hashed(argon2_hash(password))
}

/// What `verify` gives for a hash and a password.
pub open spec fn verified(hash: Seq<char>, password: Seq<char>) -> Result<(), ServiceError> {
    if password_matches(hash, password) {
        Ok(())
    } else {
        Err(ServiceError::Unauthorized)
    }
}

/// What `verify` makes of the outcome of checking a password.
pub fn checked(outcome: Result<(), argon2::password_hash::Error>) -> (r: Result<(), ServiceError>)
    ensures
        r == if outcome is Ok {
            Ok::<(), ServiceError>(())
        } else {
            Err::<(), ServiceError>(ServiceError::Unauthorized)
        },
{
    match outcome {
        Ok(_) => Ok(()),
        Err(_) => Err(ServiceError::Unauthorized),
    }
}

/// Checks a password against a stored hash. A hash that cannot be read and
/// a password that does not match are both `Unauthorized`.
pub fn verify(hash: &str, password: &str) -> (r: Result<(), ServiceError>)
    ensures
        r == verified(hash@, password@),
{
    checked(argon2_verify(hash, password))
}

} // verus!
