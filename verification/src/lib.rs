//! Idempotent DNS record reconciliation: resolve a zone by name, prune stale
//! address records for a hostname, and publish a fresh record pointing the
//! hostname at the current public address.

use vstd::prelude::*;

pub mod machine;
pub mod model;
pub mod reconcile;
pub mod request;
pub mod types;

verus! {

/// Errors the reconciliation procedure can report.
#[derive(Debug)]
pub enum AppError {
    /// The configured domain has no matching zone at the provider.
    ZoneNotFound(String),
    /// A transport-level failure or non-success status from any call.
    RequestFailure,
    /// A response body did not match the expected shape.
    DecodeFailure,
}

impl AppError {
    /// A human-readable description of the error.
    pub fn message(&self) -> (r: String)
        ensures
            match self {
                AppError::ZoneNotFound(d) => r@ == "couldn't find dns zone: "@ + d@,
                AppError::RequestFailure => r@ == "request failed"@,
                AppError::DecodeFailure => r@ == "couldn't decode response"@,
            },
    {
        match self {
            AppError::ZoneNotFound(d) => {
                let mut s = String::from_str("couldn't find dns zone: ");
                s.append(d.as_str());
                s
            },
            AppError::RequestFailure => String::from_str("request failed"),
            AppError::DecodeFailure => String::from_str("couldn't decode response"),
        }
    }
}

} // verus!
