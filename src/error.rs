//! The library's error type.

use vstd::prelude::*;

verus! {

/// What went wrong in a call. `Api` carries the HTTP-like status that the
/// failure was reported with: a remote refusal keeps the remote status, a
/// malformed stream or payload is reported with status 500.
#[derive(Debug, Clone)]
pub enum Error {
    ApiKeyNotFound,
    Api { status: u16, message: String },
    Authentication(String),
    NotFound(String),
    RateLimit,
    Timeout,
    Configuration(String),
}

/// Status that protocol and decoding failures are reported with.
pub const INTERNAL_STATUS: u16 = 500;

/// Status with which the remote reports that something does not exist.
pub const NOT_FOUND_STATUS: u16 = 404;

/// Status with which a call is refused before anything is sent.
pub const BAD_REQUEST_STATUS: u16 = 400;

impl Error {
    /// An `Api` error with the given status and message.
    pub fn api(status: u16, message: &str) -> (r: Error)
        ensures
            r matches Error::Api { status: s, message: m } && s == status && m@ == message@,
    {
        Error::Api { status, message: message.to_string() }
    }

}

} // verus!
