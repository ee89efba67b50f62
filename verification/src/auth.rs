//! Bearer extraction and the owned-endpoint authorization rule.

use vstd::prelude::*;

use crate::errors::ApiError;
use crate::headers::header_str_of;
use crate::text::{spec_has_prefix, strip_prefix};

verus! {

/// The authenticated subject of a request, as the bearer token's `sub`
/// claim names it.
#[derive(Debug)]
pub struct AuthenticatedUser(pub String);

impl Clone for AuthenticatedUser {
    fn clone(&self) -> (r: Self)
        ensures
            r == *self,
    {
        AuthenticatedUser(self.0.clone())
    }
}

/// The token text of an `Authorization` header value, when the value has
/// the `Bearer ` form.
pub open spec fn spec_bearer_token(value: Seq<char>) -> Option<Seq<char>> {
    if spec_has_prefix(value, "Bearer "@) {
        Some(value.subrange("Bearer "@.len() as int, value.len() as int))
    } else {
        None
    }
}

/// Extracts the bearer token from an `Authorization` header value: absent
/// or malformed headers fail `Unauthorized`.
pub fn parse_bearer(header: Option<&str>) -> (r: Result<String, ApiError>)
    ensures
        match header {
            None => r matches Err(e) && e is Unauthorized,
            Some(h) => match spec_bearer_token(h@) {
                Some(tok) => r matches Ok(t) && t@ == tok,
                None => r matches Err(e) && e is Unauthorized,
            },
        },
{
    let h = match header {
        Some(h) => h,
        None => {
            return Err(
                ApiError::Unauthorized(String::from_str("Missing Authorization header")),
            );
        },
    };
    match strip_prefix(h, "Bearer ") {
        Some(token) => {
            proof {
                assert(h@.subrange("Bearer "@.len() as int, h@.len() as int) =~= token@);
            }
            Ok(token)
        },
        None => Err(ApiError::Unauthorized(String::from_str("Invalid Authorization format"))),
    }
}

/// Reads the bearer token out of the request headers.
pub fn bearer_from_headers(headers: &http::HeaderMap) -> (r: Result<String, ApiError>)
    ensures
        match header_str_of(*headers, "Authorization"@) {
            None => r matches Err(e) && e is Unauthorized,
            Some(h) => match spec_bearer_token(h) {
                Some(tok) => r matches Ok(t) && t@ == tok,
                None => r matches Err(e) && e is Unauthorized,
            },
        },
{
    let value = crate::headers::header_str(headers, "Authorization");
    parse_bearer(
        match &value {
            Some(v) => Some(v.as_str()),
            None => None,
        },
    )
}

/// The owned-endpoint authorization rule: a request succeeds only when the
/// authenticated subject equals the path's `user_id`; any other subject is
/// `Forbidden`.
pub fn authorize_user(subject: &str, user_id: &str) -> (r: Result<(), ApiError>)
    ensures
        subject@ == user_id@ <==> r is Ok,
        r matches Err(e) ==> e is Forbidden,
{
    if crate::text::str_eq(subject, user_id) {
        Ok(())
    } else {
        let mut m = String::from_str("User ");
        m.append(subject);
        m.append(" cannot access sessions of user ");
        m.append(user_id);
        Err(ApiError::Forbidden(m))
    }
}

} // verus!
