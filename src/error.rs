use vstd::prelude::*;

use crate::rest_api::HttpMethod;

verus! {

/// The errors of the library.
#[derive(Clone, Debug, PartialEq, Eq)]
pub enum RestApiError {
    /// The base URL holds no `/rest.php` segment.
    RestApiUrlInvalid(String),
    /// The HTTP method is none of GET, POST, PUT, PATCH and DELETE.
    UnsupportedMethod(HttpMethod),
    /// The user agent or the bearer token holds a character that an HTTP header value cannot hold.
    InvalidHeaderValue,
    /// A content-changing call was made while no access token is held.
    AccessTokenRequired,
    /// A response lacks a text field that it must hold.
    MissingResults,
    /// The transport failed (connection, TLS, timeout); the message says how.
    Transport(String),
    /// A response body did not have the expected shape; the message says how.
    Decode(String),
}

} // verus!
