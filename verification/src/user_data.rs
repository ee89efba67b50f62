//! The user record: a password hash under the shared salt.
//!
//! Passwords are hashed with argon2 under its default parameters against
//! the fleet-wide salt; what the hasher returns is named below, and the
//! record stores it verbatim.

use argon2::PasswordHasher;
use argon2::PasswordVerifier;
use vstd::prelude::*;

use crate::errors::ApiError;

verus! {

#[derive(Debug)]
pub struct UserData {
    pub password_argon2: String,
}

/// What argon2's `hash_password` (default parameters) returns for a
/// password and a base64 salt text: the PHC hash string, or `None` where
/// the salt text is rejected or hashing fails.
pub uninterp spec fn argon2_hash_of(password: Seq<char>, salt: Seq<char>) -> Option<Seq<char>>;

/// Relies on `Argon2::hash_password` with the default parameters, against
/// the salt decoded by `SaltString::from_b64`.
#[verifier::external_body]
fn argon2_hash(password: &str, salt: &str) -> (r: Option<String>)
    ensures
        match r {
            Some(h) => argon2_hash_of(password@, salt@) == Some(h@),
            None => argon2_hash_of(password@, salt@) is None,
        },
{
    let salt = match argon2::password_hash::SaltString::from_b64(salt) {
        Ok(s) => s,
        Err(_) => return None,
    };
    argon2::Argon2::default().hash_password(password.as_bytes(), &salt).ok().map(|h| h.to_string())
}

/// What argon2's `verify_password` decides for a PHC hash string and a
/// password: whether the password matches, or `None` where the hash string
/// itself is rejected.
pub uninterp spec fn argon2_verify_of(hash: Seq<char>, password: Seq<char>) -> Option<bool>;

/// Relies on `PasswordHash::new` and `Argon2::verify_password`: recomputes
/// the hash under the parameters the PHC string carries and compares.
#[verifier::external_body]
fn argon2_verify(hash: &str, password: &str) -> (r: Option<bool>)
    ensures
        r == argon2_verify_of(hash@, password@),
{
    let parsed = match argon2::password_hash::PasswordHash::new(hash) {
        Ok(h) => h,
        Err(_) => return None,
    };
    Some(argon2::Argon2::default().verify_password(password.as_bytes(), &parsed).is_ok())
}

impl UserData {
    /// A fresh record: the password hashed against the shared salt.
    pub fn create(password: &str, salt: &str) -> (r: Result<UserData, ApiError>)
        ensures
            match r {
                Ok(u) => argon2_hash_of(password@, salt@) == Some(u.password_argon2@),
                Err(e) => argon2_hash_of(password@, salt@) is None && e is Argon2PasswordHash,
            },
    {
        match argon2_hash(password, salt) {
            Some(h) => Ok(UserData { password_argon2: h }),
            None => Err(
                ApiError::Argon2PasswordHash(String::from_str("password hashing failed")),
            ),
        }
    }
}

/// Checks a password against a stored record: `Ok(true)` or `Ok(false)`
/// per the hasher's verdict, and an error only where the stored hash
/// string itself is malformed.
pub fn verify_user_password(user_data: &UserData, password: &str) -> (r: Result<bool, ApiError>)
    ensures
        match r {
            Ok(b) => argon2_verify_of(user_data.password_argon2@, password@) == Some(b),
            Err(e) => argon2_verify_of(user_data.password_argon2@, password@) is None
                && e is Argon2PasswordHash,
        },
{
    match argon2_verify(user_data.password_argon2.as_str(), password) {
        Some(b) => Ok(b),
        None => Err(ApiError::Argon2PasswordHash(String::from_str("malformed password hash"))),
    }
}

} // verus!
