//! The closed error taxonomy of the gateway.  A bad inbound request is an
//! `InvalidRequest`; a network failure reaching the backend is an
//! `HttpRequest` error; a non-success backend status or an unusable backend
//! body is an `ApiError`; a failure producing outbound JSON is a
//! `Serialization` error.

use vstd::prelude::*;

verus! {

#[derive(Debug, Clone, PartialEq)]
pub enum AdaptorError {
    /// A network failure reaching the backend, with its description.
    HttpRequest(String),
    /// A failure encoding or decoding JSON, with its description.
    Serialization(String),
    /// An unusable configuration, with its description.
    Configuration(String),
    /// A non-success status or unusable body from the backend, with the
    /// backend's own error text attached.
    ApiError(String),
    /// A structurally unusable inbound request, with its description.
    InvalidRequest(String),
    /// A failed authentication, with its description.
    Authentication(String),
}

} // verus!
