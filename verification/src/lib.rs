//! Verified client core for a session-authenticated JSON API.
//!
//! The crate models the typed request/response dispatch layer of a
//! single-page application client: building request envelopes from
//! endpoint definitions (method, URL template, optional JSON body),
//! and turning raw transport outcomes (status code plus body text)
//! into tagged, typed results or typed errors. Around that core stand
//! the typed values the endpoints carry, the form checks that guard
//! them, and the sleep-record list helpers.

pub mod decode;
pub mod endpoint;
pub mod endpoints;
pub mod json;
pub mod sleep;
pub mod style;
pub mod types;
pub mod wire;

use vstd::prelude::*;

verus! {

/// Base address that every endpoint path is appended to.
pub const API_URL: &'static str = "http://localhost:3000/v1/";

} // verus!
