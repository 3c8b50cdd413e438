//! Typed failures of the pipeline.  Every error kind aborts the current
//! invocation and is surfaced to the caller; none is retried inside the core.

use vstd::prelude::*;

verus! {

/// A failure while materializing, configuring, sanitizing or rendering a
/// repository clone.  The payload is the human-readable cause.
#[derive(Clone, Debug, PartialEq, Eq)]
pub enum RepositoryError {
    /// Clone or checkout failure reported by the git layer.
    Clone(String),
    /// Filesystem failure during directory creation, removal or traversal.
    Io(String),
    /// The required global ignore-pattern source is missing or unreadable.
    Configuration(String),
    /// A policy violation or failure found while sanitizing the clone.
    Sanitization(String),
    /// A tree-listing command exited with a non-zero status.
    Rendering(String),
}

impl RepositoryError {
    /// The text this error carries.
    pub open spec fn text(self) -> Seq<char> {
        match self {
            RepositoryError::Clone(m) => m@,
            RepositoryError::Io(m) => m@,
            RepositoryError::Configuration(m) => m@,
            RepositoryError::Sanitization(m) => m@,
            RepositoryError::Rendering(m) => m@,
        }
    }

    /// Returns the text this error carries.
    pub fn message(&self) -> (r: String)
        ensures
            r@ == self.text(),
    {
        match self {
            RepositoryError::Clone(m) => m.clone(),
            RepositoryError::Io(m) => m.clone(),
            RepositoryError::Configuration(m) => m.clone(),
            RepositoryError::Sanitization(m) => m.clone(),
            RepositoryError::Rendering(m) => m.clone(),
        }
    }
}

/// An application-level failure surfaced to a caller of the pipeline.
#[derive(Clone, Debug, PartialEq, Eq)]
pub enum AppError {
    /// The token named by a request does not exist.
    TokenNotFound,
    /// The token named by a request cannot be accepted.
    InvalidToken,
    /// The persistence layer failed; the payload is its report.
    Database(String),
    /// The request itself is unacceptable.
    BadRequest(String),
    /// Cloning or processing the repository failed.
    Clone(RepositoryError),
    /// The external documentation service refused or failed the request.
    WikiService(String),
}

} // verus!
