//! Real-time SVG streaming service core.
//!
//! A producer creates a session (a text template plus a mutable argument
//! map); consumers receive the rendered SVG as a `multipart/x-mixed-replace`
//! byte stream, with a fresh part pushed on every update.  This crate holds
//! the verified core: the session model, the renderer glue, the multipart
//! framing, the per-connection driver state machine, the key conventions of
//! the shared store, and the request-validation rules of the HTTP surface.
//! The asynchronous shell (HTTP server, store connections) lives outside.

use vstd::prelude::*;

pub mod api;
pub mod args;
pub mod auth;
pub mod browser_engine;
pub mod client;
pub mod config;
pub mod errors;
pub mod headers;
pub mod json;
pub mod jwks;
pub mod jwt;
pub mod keys;
pub mod multipart;
pub mod render;
pub mod session_data;
pub mod stream;
pub mod text;
pub mod user_data;
pub mod whoami;

verus! {

/// A rendered SVG frame: the unit of broadcast on a session's topic.
///
/// The timestamp is advisory (it is used for logging only and never for
/// ordering decisions); it is kept as milliseconds since the Unix epoch.
#[derive(Debug)]
pub struct SvgFrame {
    pub content: String,
    pub timestamp_ms: i64,
}

impl SvgFrame {
    /// Relies on chrono's `Utc::now` for the advisory timestamp; nothing is
    /// assumed of the value returned.
    #[verifier::external_body]
    fn now_timestamp_ms() -> i64 {
        chrono::Utc::now().timestamp_millis()
    }

    pub fn new(content: String) -> (r: Self)
        ensures
            r.content@ == content@,
    {
        SvgFrame { content, timestamp_ms: Self::now_timestamp_ms() }
    }
}

impl Clone for SvgFrame {
    fn clone(&self) -> (r: Self)
        ensures
            r == *self,
    {
        SvgFrame { content: self.content.clone(), timestamp_ms: self.timestamp_ms }
    }
}

/// Response payload naming one session.
#[derive(Debug)]
pub struct SessionInfo {
    pub session_id: String,
}

/// Response payload carrying one session's stored template and arguments.
#[derive(Debug)]
pub struct SessionDetailInfo {
    pub session_id: String,
    pub template: String,
    pub args: crate::args::ArgMap,
}

/// Response payload listing several items.
#[derive(Debug)]
pub struct ListResponse<T> {
    pub items: Vec<T>,
}

} // verus!
