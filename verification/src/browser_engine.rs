//! Browser engine detection from the `Sec-CH-UA` header.
//!
//! Blink-family browsers coalesce multipart replacement frames and withhold
//! the first real update from display; for them every part is written twice
//! (the double-frame workaround).

use vstd::prelude::*;

use crate::headers::header_str_of;
use crate::text::spec_contains;

verus! {

#[derive(Debug, Clone, Copy, PartialEq, Eq, Structural)]
pub enum WellKnownBrowserEngine {
    Blink,
    WebKit,
    Gecko,
    Unknown,
}

/// What `str::to_lowercase` returns: the result depends on the characters
/// alone.
pub uninterp spec fn lower_of(s: Seq<char>) -> Seq<char>;

/// Relies on `str::to_lowercase`.
#[verifier::external_body]
fn to_lowercase(s: &str) -> (r: String)
    ensures
        r@ == lower_of(s@),
{
    s.to_lowercase()
}

impl WellKnownBrowserEngine {
    /// The engine family a lower-cased `Sec-CH-UA` value names.
    pub open spec fn spec_of_lowered(ua: Seq<char>) -> WellKnownBrowserEngine {
        if spec_contains(ua, "chromium"@) || spec_contains(ua, "chrome"@) {
            WellKnownBrowserEngine::Blink
        } else if spec_contains(ua, "gecko"@) {
            WellKnownBrowserEngine::Gecko
        } else if spec_contains(ua, "safari"@) {
            WellKnownBrowserEngine::WebKit
        } else {
            WellKnownBrowserEngine::Unknown
        }
    }

    /// Detects the engine family in an already lower-cased `Sec-CH-UA`
    /// value.
    pub fn of_lowered(ua: &str) -> (r: WellKnownBrowserEngine)
        ensures
            r == WellKnownBrowserEngine::spec_of_lowered(ua@),
    {
        if crate::text::contains_sub(ua, "chromium") || crate::text::contains_sub(ua, "chrome") {
            WellKnownBrowserEngine::Blink
        } else if crate::text::contains_sub(ua, "gecko") {
            WellKnownBrowserEngine::Gecko
        } else if crate::text::contains_sub(ua, "safari") {
            WellKnownBrowserEngine::WebKit
        } else {
            WellKnownBrowserEngine::Unknown
        }
    }

    /// The engine family a request's headers name.
    pub open spec fn spec_from_header(headers: http::HeaderMap) -> WellKnownBrowserEngine {
        match header_str_of(headers, "sec-ch-ua"@) {
            Some(ua) => WellKnownBrowserEngine::spec_of_lowered(lower_of(ua)),
            None => WellKnownBrowserEngine::Unknown,
        }
    }

    pub fn from_header(headers: &http::HeaderMap) -> (r: WellKnownBrowserEngine)
        ensures
            r == WellKnownBrowserEngine::spec_from_header(*headers),
    {
        match crate::headers::header_str(headers, "sec-ch-ua") {
            Some(ua) => {
                let lowered = to_lowercase(ua.as_str());
                WellKnownBrowserEngine::of_lowered(lowered.as_str())
            },
            None => WellKnownBrowserEngine::Unknown,
        }
    }

    /// Whether this engine needs the double-frame workaround.
    pub fn is_x_multipart_replace_double_frame(&self) -> (r: bool)
        ensures
            r == (*self is Blink),
    {
        matches!(self, WellKnownBrowserEngine::Blink)
    }
}

} // verus!
