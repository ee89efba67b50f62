//! Client-kind classification: is the request a human's browser navigation
//! or a bot's image fetch?
//!
//! The classification is header-based, in a fixed precedence:
//! `Sec-Fetch-Mode`, then `Sec-Fetch-Dest`, then `Accept`.  It governs the
//! automatic redirect on stream endpoints.

use vstd::prelude::*;

use crate::headers::header_str_of;
use crate::text::spec_contains;

verus! {

#[derive(Debug, Clone, Copy, PartialEq, Eq, Structural)]
pub enum WhoAmI {
    Human,
    Bot,
    Unknown,
}

/// The view of an optional borrowed string.
pub open spec fn opt_str_view(o: Option<&str>) -> Option<Seq<char>> {
    match o {
        Some(s) => Some(s@),
        None => None,
    }
}

impl WhoAmI {
    /// The classification, in precedence order: `Sec-Fetch-Mode: navigate`
    /// means a human and `no-cors` a bot; then `Sec-Fetch-Dest: image`
    /// means a bot and `document` a human; then an `Accept` containing
    /// `text/html` means a human and one containing `image/` a bot.
    pub open spec fn spec_classify(
        mode: Option<Seq<char>>,
        dest: Option<Seq<char>>,
        accept: Option<Seq<char>>,
    ) -> WhoAmI {
        if mode == Some("navigate"@) {
            WhoAmI::Human
        } else if mode == Some("no-cors"@) {
            WhoAmI::Bot
        } else if dest == Some("image"@) {
            WhoAmI::Bot
        } else if dest == Some("document"@) {
            WhoAmI::Human
        } else if accept matches Some(a) && spec_contains(a, "text/html"@) {
            WhoAmI::Human
        } else if accept matches Some(a) && spec_contains(a, "image/"@) {
            WhoAmI::Bot
        } else {
            WhoAmI::Unknown
        }
    }

    /// Classifies from the three header values.
    pub fn classify(mode: Option<&str>, dest: Option<&str>, accept: Option<&str>) -> (r: WhoAmI)
        ensures
            r == WhoAmI::spec_classify(opt_str_view(mode), opt_str_view(dest), opt_str_view(
                accept,
            )),
    {
        if let Some(m) = mode {
            if crate::text::str_eq(m, "navigate") {
                return WhoAmI::Human;
            }
            if crate::text::str_eq(m, "no-cors") {
                return WhoAmI::Bot;
            }
        }
        if let Some(d) = dest {
            if crate::text::str_eq(d, "image") {
                return WhoAmI::Bot;
            }
            if crate::text::str_eq(d, "document") {
                return WhoAmI::Human;
            }
        }
        if let Some(a) = accept {
            if crate::text::contains_sub(a, "text/html") {
                return WhoAmI::Human;
            }
            if crate::text::contains_sub(a, "image/") {
                return WhoAmI::Bot;
            }
        }
        WhoAmI::Unknown
    }

    /// The classification a request's headers give it.
    pub open spec fn spec_from_header(headers: http::HeaderMap) -> WhoAmI {
        WhoAmI::spec_classify(
            header_str_of(headers, "sec-fetch-mode"@),
            header_str_of(headers, "sec-fetch-dest"@),
            header_str_of(headers, "accept"@),
        )
    }

    pub fn from_header(headers: &http::HeaderMap) -> (r: WhoAmI)
        ensures
            r == WhoAmI::spec_from_header(*headers),
    {
        let mode = crate::headers::header_str(headers, "sec-fetch-mode");
        let dest = crate::headers::header_str(headers, "sec-fetch-dest");
        let accept = crate::headers::header_str(headers, "accept");
        WhoAmI::classify(
            match &mode {
                Some(s) => Some(s.as_str()),
                None => None,
            },
            match &dest {
                Some(s) => Some(s.as_str()),
                None => None,
            },
            match &accept {
                Some(s) => Some(s.as_str()),
                None => None,
            },
        )
    }
}

/// The infallible extractor payload: every request gets a classification.
#[derive(Debug, Clone, Copy)]
pub struct ExtractWhoAmI(pub WhoAmI);

} // verus!
