//! The failures the library reports.

use vstd::prelude::*;

verus! {

/// Why an operation failed. Each variant carries a text for the caller.
#[derive(Debug)]
pub enum ApplicationError {
    /// The caller's input is malformed: an identifier that is no UUID, or an
    /// empty message.
    InvalidInput(String),
    /// No record has the identifier asked for.
    NotFound(String),
    /// The store failed.
    InternalError(String),
}

impl ApplicationError {
    /// The HTTP status a transport answers this failure with.
    pub open spec fn spec_status_code(self) -> u16 {
        match self {
            ApplicationError::InvalidInput(_) => 400,
            ApplicationError::NotFound(_) => 404,
            ApplicationError::InternalError(_) => 500,
        }
    }

    /// The text the failure carries.
    pub open spec fn spec_message(self) -> String {
        match self {
            ApplicationError::InvalidInput(message) => message,
            ApplicationError::NotFound(message) => message,
            ApplicationError::InternalError(message) => message,
        }
    }

    pub fn status_code(&self) -> (r: u16)
        ensures
            r == self.spec_status_code(),
            400 <= r < 600,
            r >= 500 <==> self is InternalError,
    {
        match self {
            ApplicationError::InvalidInput(_) => 400,
            ApplicationError::NotFound(_) => 404,
            ApplicationError::InternalError(_) => 500,
        }
    }

    pub fn message(&self) -> (r: &String)
        ensures
            *r == self.spec_message(),
    {
        match self {
            ApplicationError::InvalidInput(message) => message,
            ApplicationError::NotFound(message) => message,
            ApplicationError::InternalError(message) => message,
        }
    }
}

} // verus!
