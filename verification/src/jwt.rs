//! Bearer-token claims and their acceptance rules.
//!
//! Tokens are compact JWS, RS256, over the claim set
//! `{ sub, iat, exp, iss = "realtime-svg" }`.  The signature itself is
//! checked by the cryptographic layer outside this crate; the claim rules
//! (issuer, expiry with leeway) are decided here.

use vstd::prelude::*;

use crate::errors::ApiError;

verus! {

/// The registered claims this service issues and accepts.
#[derive(Debug)]
pub struct Claims {
    /// The subject: the user identifier.
    pub sub: String,
    /// Expiry, seconds since the Unix epoch.
    pub exp: u64,
    /// Issued-at, seconds since the Unix epoch.
    pub iat: u64,
    /// The issuer; always `realtime-svg` for valid tokens.
    pub iss: String,
}

impl Clone for Claims {
    fn clone(&self) -> (r: Self)
        ensures
            r == *self,
    {
        Claims {
            sub: self.sub.clone(),
            exp: self.exp,
            iat: self.iat,
            iss: self.iss.clone(),
        }
    }
}

/// The acceptance leeway on expiry, in seconds.
pub open spec fn spec_leeway() -> nat {
    60
}

/// Builds the claim set of a fresh token: issued now, expiring after
/// `ttl_seconds`, issued by this service.
pub fn build_claims(user_id: &str, now: u64, ttl_seconds: u64) -> (r: Claims)
    requires
        now + ttl_seconds <= u64::MAX,
    ensures
        r.sub@ == user_id@,
        r.iat == now,
        r.exp == now + ttl_seconds,
        r.iss@ == "realtime-svg"@,
{
    Claims {
        sub: user_id.to_owned(),
        exp: now + ttl_seconds,
        iat: now,
        iss: String::from_str("realtime-svg"),
    }
}

/// Whether a decoded claim set is acceptable at time `now`: the issuer
/// must be this service's and the expiry must not lie more than the leeway
/// in the past.
pub open spec fn spec_claims_valid(c: Claims, now: u64) -> bool {
    c.iss@ == "realtime-svg"@ && c.exp + spec_leeway() >= now
}

/// Decides a decoded claim set: the authenticated subject on acceptance, a
/// single `Unauthorized` outcome on any defect.
pub fn claims_check(claims: &Claims, now: u64) -> (r: Result<String, ApiError>)
    ensures
        spec_claims_valid(*claims, now) ==> (r matches Ok(sub) && sub@ == claims.sub@),
        !spec_claims_valid(*claims, now) ==> (r matches Err(e) && e is Unauthorized),
{
    if !crate::text::str_eq(claims.iss.as_str(), "realtime-svg") {
        return Err(ApiError::Unauthorized(String::from_str("Invalid JWT token: wrong issuer")));
    }
    if claims.exp < u64::MAX - 60 && claims.exp + 60 < now {
        return Err(ApiError::Unauthorized(String::from_str("Invalid JWT token: expired")));
    }
    Ok(claims.sub.clone())
}

} // verus!
