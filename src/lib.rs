//! Typed client for the Steam Workshop web API.
//!
//! The library decides what is sent and what a reply means: the endpoint
//! address, the query or form parameters, the choice between the API host and
//! a caller's relay, the batching of long identifier lists, and the unwrapping
//! of the response envelopes. Sending the request and decoding the JSON text
//! into the envelope types is left to the caller.
use vstd::prelude::*;

pub mod batch;
pub mod client;
pub mod error;
pub mod interfaces;
pub mod request;

verus! {

/// Host that every direct (not relayed) call is addressed to.
pub const STEAM_API_URL: &'static str = "https://api.steampowered.com";

/// Value of the `User-Agent` header sent with every request.
pub const USER_AGENT: &'static str = "rs-steamwebapi/v0.1.0";

} // verus!
