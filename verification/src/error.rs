//! The error taxonomy of the storage layer.
//!
//! `NotFound` means the key is absent from the backend; `Unexpected` is any
//! other failure, carrying a description of the underlying cause. `NotFound`
//! during resolution is recovered into a fresh session and never surfaced to
//! the client; every other error aborts the request pipeline.

use vstd::prelude::*;

verus! {

/// A storage-layer failure.
#[derive(Debug)]
pub enum SessionError {
    /// The key is absent from the backend.
    NotFound,
    /// Any other failure, with a description of the underlying cause.
    Unexpected(String),
}

impl SessionError {
    /// The HTTP status class the error maps to when this layer is used
    /// directly as an API: absence is a client-side 404, everything else a
    /// server-side 500.
    pub fn status_code(&self) -> (r: u16)
        ensures
            r == (match self {
                SessionError::NotFound => 404u16,
                SessionError::Unexpected(_) => 500u16,
            }),
    {
        match self {
            SessionError::NotFound => 404,
            SessionError::Unexpected(_) => 500,
        }
    }

    /// The response body text paired with [`Self::status_code`].
    pub fn response_message(&self) -> (r: &'static str)
        ensures
            matches!(self, SessionError::NotFound) ==> r@ == "session not found"@,
            matches!(self, SessionError::Unexpected(_)) ==> r@ == "unexpected error"@,
    {
        match self {
            SessionError::NotFound => "session not found",
            SessionError::Unexpected(_) => "unexpected error",
        }
    }
}

} // verus!
