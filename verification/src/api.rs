//! The HTTP surface's request validation and per-endpoint decisions.
//!
//! Each handler of the unverified shell gathers plain values (the request
//! body, whether a key exists, what the store returned) and calls one
//! decision function here; the function validates, authorizes and builds
//! the values to store and to answer with, and its contract says exactly
//! which error comes back on which input.

pub mod auth_token;
pub mod session;
pub mod stream;
pub mod user;
