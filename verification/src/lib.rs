//! Client-side core of a streaming row-ingestion write API.
//!
//! The crate turns a table description into the wire schema that goes out
//! with the rows, names the destination stream, builds the one request of an
//! append call and puts the bearer token on it, and decides step by step
//! what a call does next. It performs no input or output itself: whoever
//! drives a call asks the credential provider and talks to the server.

use vstd::prelude::*;

pub mod auth;
pub mod call;
pub mod column;
pub mod error;
pub mod request;
pub mod schema;
pub mod stream_name;

verus! {

/// Address of the service.
pub const API_ENDPOINT: &'static str = "https://bigquerystorage.googleapis.com";

/// Domain name that the service's certificate must be for.
pub const API_DOMAIN: &'static str = "bigquerystorage.googleapis.com";

/// Scope for which every token is asked.
pub const API_SCOPE: &'static str = "https://www.googleapis.com/auth/bigquery";

} // verus!
