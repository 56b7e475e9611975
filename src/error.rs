//! What can go wrong while polling a backend.
use vstd::prelude::*;

verus! {

/// Why a poll of a backend failed.
#[derive(Clone, Debug, PartialEq, Eq)]
pub enum BackendError {
    /// The transport failed to reach the backend.
    Network(String),
    /// The backend answered with a status other than success.
    HttpStatus(u16),
    /// The body did not have the expected shape.
    MalformedResponse(String),
    /// A number sent as text could not be read.
    NumericParse(String),
    /// The configured base address cannot carry the backend's paths.
    Configuration(String),
}

/// Whether an HTTP status code reports success.
pub open spec fn is_success_status(status: u16) -> bool {
    200 <= status && status <= 299
}

pub const UNAUTHORIZED: u16 = 401;

} // verus!
