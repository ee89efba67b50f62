//! The token-issuance endpoint's validation.
//!
//! Whether issuance demands a valid password is a deployment choice; this
//! service takes the strict reading: issuance creates the user record with
//! a set-if-absent write and then verifies the offered password against
//! the stored hash, so a name once taken stays bound to its password.

use vstd::prelude::*;

use crate::errors::ApiError;

verus! {

/// The token request body: a user, a password, and an optional TTL (an
/// hour when absent).
#[derive(Debug)]
pub struct TokenRequest {
    pub user_id: String,
    pub password: String,
    pub ttl_seconds: Option<u64>,
}

/// The token response payload.
#[derive(Debug)]
pub struct TokenResponse {
    pub token: String,
}

/// Validates a token request: an empty user id is `Unauthorized`;
/// otherwise the effective TTL is the requested one or an hour.
pub fn validate_token_request(req: &TokenRequest) -> (r: Result<u64, ApiError>)
    ensures
        req.user_id@.len() == 0 ==> (r matches Err(e) && e is Unauthorized),
        req.user_id@.len() > 0 ==> (r matches Ok(t) && t == match req.ttl_seconds {
            Some(v) => v,
            None => 3600u64,
        }),
{
    if req.user_id.as_str().unicode_len() == 0 {
        return Err(ApiError::Unauthorized(String::from_str("user_id cannot be empty")));
    }
    match req.ttl_seconds {
        Some(v) => Ok(v),
        None => Ok(3600),
    }
}

/// Decides the password check's outcome: a failed verification means the
/// user name is taken with another password, and the request is
/// `Unauthorized`.
pub fn password_check_outcome(verified: bool) -> (r: Result<(), ApiError>)
    ensures
        verified <==> r is Ok,
        r matches Err(e) ==> e is Unauthorized,
{
    if verified {
        Ok(())
    } else {
        Err(
            ApiError::Unauthorized(
                String::from_str(
                    "Invalid credentials, 동일한 사용자명이 다른 사용자에 의해 점유되었을 수 있습니다.",
                ),
            ),
        )
    }
}

} // verus!
