//! The service's error taxonomy and its mapping onto HTTP status classes.
//!
//! Client-caused failures (missing input, a bad URL, an unrecognized
//! session, an ambiguous input shape, an engine failure on bad data) are
//! surfaced as 4xx responses; only storage faults mark the service itself
//! as unhealthy and become 5xx responses.

use vstd::prelude::*;

verus! {

/// Everything that can go wrong in the conversion core.
#[derive(Debug)]
pub enum ServiceError {
    /// The client supplied no usable input, a malformed URL, an unknown
    /// session identifier, or input whose shape could not be determined.
    BadInput { message: String },
    /// An ingestion stream ran past the configured byte ceiling.
    SizeExceeded,
    /// A requested output artifact was not produced by the conversion.
    NotFound { what: String },
    /// The external flattening engine reported a failure.
    ConversionFailed { message: String },
    /// A filesystem or I/O fault not attributable to the client.
    Storage { message: String },
}

/// HTTP status code a response carrying the error must use: every
/// client-caused error is a 4xx, and only storage faults are 5xx.
pub open spec fn spec_http_status(e: ServiceError) -> u16 {
    match e {
        ServiceError::BadInput { .. } => 400,
        ServiceError::SizeExceeded => 400,
        ServiceError::NotFound { .. } => 404,
        ServiceError::ConversionFailed { .. } => 400,
        ServiceError::Storage { .. } => 500,
    }
}

/// True exactly of the errors that indicate the service itself is
/// unhealthy, rather than a fault of the request.
pub open spec fn spec_is_server_fault(e: ServiceError) -> bool {
    e is Storage
}

impl ServiceError {
    /// The HTTP status code of the response that reports this error.
    pub fn http_status(&self) -> (s: u16)
        ensures
            s == spec_http_status(*self),
            s >= 500 <==> spec_is_server_fault(*self),
    {
        match self {
            ServiceError::BadInput { .. } => 400,
            ServiceError::SizeExceeded => 400,
            ServiceError::NotFound { .. } => 404,
            ServiceError::ConversionFailed { .. } => 400,
            ServiceError::Storage { .. } => 500,
        }
    }
}

} // verus!
