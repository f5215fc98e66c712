//! The failures the library reports.
use crate::json::Json;
use vstd::prelude::*;

verus! {

/// How the backend reported a failure.
#[derive(Debug, PartialEq)]
pub enum UpstreamError {
    /// The backend answered with a status outside 200..=299.
    Http { status: u16, body: String },
    /// The decoded body held an `errors` member.
    Graphql { errors: Json },
    /// A mutation answered without reporting success.
    Rejected { operation: String },
    /// The request never got an answer.
    Transport { message: String },
}

/// A failure, kept by kind from the backend up to the protocol boundary.
#[derive(Debug, PartialEq)]
pub enum ServiceError {
    /// A caller-supplied argument is missing or malformed.
    Validation { field: String },
    /// A caller-supplied argument holds a value that is not accepted.
    InvalidValue { field: String, value: String },
    /// The entity does not exist.
    NotFound { entity: String, id: String },
    /// The active adapter does not implement the operation.
    UnsupportedOperation { operation: String },
    /// The active adapter cannot express a filter dimension.
    UnsupportedFilter { dimension: String },
    /// The backend transport reported a failure.
    Upstream(UpstreamError),
    /// A backend response was malformed in a mandatory or present field.
    Decode { field: String },
    /// The protocol named a tool the server does not offer.
    UnknownTool { name: String },
    /// The protocol named a resource the server does not offer.
    UnknownResource { uri: String },
}

/// The kind of a [`ServiceError`], for callers that branch on it.
#[derive(Debug, Clone, Copy, PartialEq, Eq, Structural)]
pub enum ErrorKind {
    Validation,
    NotFound,
    UnsupportedOperation,
    UnsupportedFilter,
    Upstream,
    Decode,
    UnknownTool,
    UnknownResource,
}

pub open spec fn kind_of(e: ServiceError) -> ErrorKind {
    match e {
        ServiceError::Validation { .. } => ErrorKind::Validation,
        ServiceError::InvalidValue { .. } => ErrorKind::Validation,
        ServiceError::NotFound { .. } => ErrorKind::NotFound,
        ServiceError::UnsupportedOperation { .. } => ErrorKind::UnsupportedOperation,
        ServiceError::UnsupportedFilter { .. } => ErrorKind::UnsupportedFilter,
        ServiceError::Upstream(_) => ErrorKind::Upstream,
        ServiceError::Decode { .. } => ErrorKind::Decode,
        ServiceError::UnknownTool { .. } => ErrorKind::UnknownTool,
        ServiceError::UnknownResource { .. } => ErrorKind::UnknownResource,
    }
}

impl ServiceError {
    pub fn kind(&self) -> (r: ErrorKind)
        ensures
            r == kind_of(*self),
    {
        match self {
            ServiceError::Validation { .. } => ErrorKind::Validation,
            ServiceError::InvalidValue { .. } => ErrorKind::Validation,
            ServiceError::NotFound { .. } => ErrorKind::NotFound,
            ServiceError::UnsupportedOperation { .. } => ErrorKind::UnsupportedOperation,
            ServiceError::UnsupportedFilter { .. } => ErrorKind::UnsupportedFilter,
            ServiceError::Upstream(_) => ErrorKind::Upstream,
            ServiceError::Decode { .. } => ErrorKind::Decode,
            ServiceError::UnknownTool { .. } => ErrorKind::UnknownTool,
            ServiceError::UnknownResource { .. } => ErrorKind::UnknownResource,
        }
    }

    /// The error for an operation the active adapter does not implement.
    pub fn unsupported(operation: &str) -> (r: ServiceError)
        ensures
            r matches ServiceError::UnsupportedOperation { operation: o } && o@ == operation@,
    {
        ServiceError::UnsupportedOperation { operation: operation.to_owned() }
    }
}

impl ErrorKind {
    /// The name the protocol encoding uses for this kind.
    pub fn name(&self) -> (r: &'static str)
        ensures
            r@ == kind_name(*self),
    {
        match self {
            ErrorKind::Validation => "ValidationError",
            ErrorKind::NotFound => "NotFound",
            ErrorKind::UnsupportedOperation => "UnsupportedOperation",
            ErrorKind::UnsupportedFilter => "UnsupportedFilter",
            ErrorKind::Upstream => "UpstreamError",
            ErrorKind::Decode => "DecodeError",
            ErrorKind::UnknownTool => "UnknownTool",
            ErrorKind::UnknownResource => "UnknownResource",
        }
    }
}

pub open spec fn kind_name(k: ErrorKind) -> Seq<char> {
    match k {
        ErrorKind::Validation => "ValidationError"@,
        ErrorKind::NotFound => "NotFound"@,
        ErrorKind::UnsupportedOperation => "UnsupportedOperation"@,
        ErrorKind::UnsupportedFilter => "UnsupportedFilter"@,
        ErrorKind::Upstream => "UpstreamError"@,
        ErrorKind::Decode => "DecodeError"@,
        ErrorKind::UnknownTool => "UnknownTool"@,
        ErrorKind::UnknownResource => "UnknownResource"@,
    }
}

} // verus!
