//! The error taxonomy of the providers, with its message text and HTTP
//! status.

use vstd::prelude::*;
use crate::model::ErrorResponse;

verus! {

/// Error of a provider operation; each variant carries a detail text.
#[derive(Debug, Clone)]
pub enum ServiceError {
    InvalidSchema(String),
    InvalidTimeFormat(String),
    ApiError(String),
    ConnectionError(String),
    NotConfigured(String),
}

/// The human-readable text of an error: a prefix naming its kind, then its
/// detail.
pub open spec fn error_text(e: ServiceError) -> Seq<char> {
    match e {
        ServiceError::InvalidSchema(d) => "Invalid schema: "@ + d@,
        ServiceError::InvalidTimeFormat(d) => "Invalid time format: "@ + d@,
        ServiceError::ApiError(d) => "API error: "@ + d@,
        ServiceError::ConnectionError(d) => "Connection error: "@ + d@,
        ServiceError::NotConfigured(d) => "Not configured: "@ + d@,
    }
}

/// The HTTP status of an error: 400 for caller input, 502 for upstream
/// failures, 401 for missing credentials.
pub open spec fn error_status(e: ServiceError) -> u16 {
    match e {
        ServiceError::InvalidSchema(_) => 400,
        ServiceError::InvalidTimeFormat(_) => 400,
        ServiceError::ApiError(_) => 502,
        ServiceError::ConnectionError(_) => 502,
        ServiceError::NotConfigured(_) => 401,
    }
}

impl ServiceError {
    /// The human-readable text of this error.
    pub fn message(&self) -> (r: String)
        ensures
            r@ == error_text(*self),
    {
        let (prefix, detail) = match self {
            ServiceError::InvalidSchema(d) => ("Invalid schema: ", d),
            ServiceError::InvalidTimeFormat(d) => ("Invalid time format: ", d),
            ServiceError::ApiError(d) => ("API error: ", d),
            ServiceError::ConnectionError(d) => ("Connection error: ", d),
            ServiceError::NotConfigured(d) => ("Not configured: ", d),
        };
        let mut r = String::from_str(prefix);
        r.append(detail.as_str());
        r
    }

    /// The HTTP status of this error.
    pub fn status_code(&self) -> (r: u16)
        ensures
            r == error_status(*self),
    {
        match self {
            ServiceError::InvalidSchema(_) => 400,
            ServiceError::InvalidTimeFormat(_) => 400,
            ServiceError::ApiError(_) => 502,
            ServiceError::ConnectionError(_) => 502,
            ServiceError::NotConfigured(_) => 401,
        }
    }

    /// The error body sent to an HTTP client: the text and the status.
    pub fn to_error_response(&self) -> (r: ErrorResponse)
        ensures
            r.error@ == error_text(*self),
            r.code == error_status(*self),
    {
        ErrorResponse { error: self.message(), code: self.status_code() }
    }
}

} // verus!
