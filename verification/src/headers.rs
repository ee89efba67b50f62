//! Reading request headers.
//!
//! The header map is the `http` crate's; what it holds under a name is
//! given the name [`header_str_of`], and every header-driven decision in
//! this crate is specified over that name.

use vstd::prelude::*;

verus! {

#[verifier::external_type_specification]
#[verifier::external_body]
#[verifier::reject_recursive_types(T)]
pub struct ExHeaderMap<T>(http::HeaderMap<T>);

#[verifier::external_type_specification]
#[verifier::external_body]
pub struct ExHeaderValue(http::HeaderValue);

/// What the header map holds under a name, read as text: the first value
/// under the name, where that value is valid text.
pub uninterp spec fn header_str_of(headers: http::HeaderMap, name: Seq<char>) -> Option<Seq<char>>;

/// Relies on `http::HeaderMap::get` (the first value under the name) and
/// `http::HeaderValue::to_str` (that value as text, where it is valid).
#[verifier::external_body]
pub(crate) fn header_str(headers: &http::HeaderMap, name: &str) -> (r: Option<String>)
    ensures
        match r {
            Some(s) => header_str_of(*headers, name@) == Some(s@),
            None => header_str_of(*headers, name@) is None,
        },
{
    headers.get(name).and_then(|v| v.to_str().ok()).map(|s| s.to_owned())
}

} // verus!
