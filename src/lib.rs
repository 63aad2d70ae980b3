//! Client library for the GLEIF legal-entity-identifier REST API.
//!
//! - [`field`] and [`value`]: closed enumerations of filterable field names
//!   and field values, with their wire strings and parsing (optionally against
//!   an allow-list).
//! - [`filter`]: the filter codec, from an operator and its operands to the
//!   wire string and back.
//! - [`query`] and [`request_builder`]: the fluent builder that accumulates
//!   filters, sort and pagination with last-write-wins keys, and resolves the
//!   request URL.
//! - [`model::api_response`]: the response envelope, whose `data` member is one
//!   resource object or an array of them.
//! - [`api::throttler`]: the decisions of the fixed-window request throttle.
//! - [`client`] and [`endpoint`]: the configured client and its endpoints.
pub mod api;
pub mod client;
pub mod endpoint;
pub mod error;
pub mod field;
pub mod filter;
pub mod model;
pub mod query;
pub mod request_builder;
pub mod text;
pub mod value;

use vstd::prelude::*;

verus! {

/// The default base URL of the API.
pub const DEFAULT_BASE_URL: &'static str = "https://api.gleif.org/api/v1/";

} // verus!
