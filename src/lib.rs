//! Typed client library for the MediaWiki REST API.
//!
//! The library turns calls on pages, revisions, files, searches, math popups and
//! wikitext/HTML transforms into fully described requests (method, URL, headers,
//! query or form parameters, body), validates the base URL and manages the bearer
//! token credential. Sending a request and decoding its response is left to the
//! HTTP layer of the caller.

pub mod text;
pub mod encoding;
pub mod utilities;
pub mod bearer_token;
pub mod error;
pub mod rest_api;
pub mod rest_api_builder;
pub mod page;
pub mod revision;
pub mod file;
pub mod math;
pub mod search;
pub mod transform;
pub mod response;
