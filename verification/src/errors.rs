use vstd::prelude::*;

verus! {

/// Failure categories for requests into the control plane.  `BadRequest`
/// carries a human-readable validation message; `NotFound` marks a missing
/// row; `InternalServerError` covers everything unexpected.
#[derive(Clone, Debug, PartialEq)]
pub enum ServiceError {
    /// Unexpected failure; logged and surfaced, never aborts the process.
    InternalServerError,
    /// Validation failure with a message for the client.
    BadRequest(String),
    /// The requested row does not exist.
    NotFound,
}

impl ServiceError {
    /// Short description used by transport layers when rendering the error.
    pub fn message(&self) -> (r: String)
        ensures
            r@ == match self {
                ServiceError::InternalServerError => "Internal Server Error"@,
                ServiceError::BadRequest(m) => m@,
                ServiceError::NotFound => "Not Found"@,
            },
    {
        match self {
            ServiceError::InternalServerError => String::from_str("Internal Server Error"),
            ServiceError::BadRequest(m) => m.clone(),
            ServiceError::NotFound => String::from_str("Not Found"),
        }
    }
}

} // verus!
