//! A typed client for the racetime.gg public REST API.
//!
//! The crate resolves a small set of named endpoints to URLs, attaches
//! URL-encoded query parameters, and interprets the HTTP response uniformly
//! for every endpoint/target-type pair: a 404 is reported as a distinguished
//! "not found" outcome, any other non-2xx status as an unexpected status, and
//! a 2xx body is deserialized as JSON into the caller's chosen target type.

pub mod client;
pub mod endpoint;
pub mod endpoints;
pub mod err;
pub mod strutil;
pub mod types;
