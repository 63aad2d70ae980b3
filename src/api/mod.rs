//! A lower-level client layer: HTTP method names, response checks and the
//! request throttle.
pub mod client;
pub mod request_builder;
pub mod throttler;
