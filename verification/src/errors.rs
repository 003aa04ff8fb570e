//! The error taxonomy of the two creation workflows.
//!
//! Every failure is terminal for its request: a step maps its failure to one
//! of these kinds and the remaining steps are never attempted. Driver-level
//! failures arrive as plain messages; the workflows classify them.

use vstd::prelude::*;

verus! {

/// Failure of the repository-creation workflow.
#[derive(Debug)]
pub enum RepoCreationError {
    /// The outbound provisioning call failed: transport error or
    /// non-success status.
    GitServerError(String),
    /// The document-store driver reported a failure.
    DatabaseError(String),
    /// The supplied user identifier is not a well-formed reference.
    InvalidObjectId(String),
    /// A write reported success but no identity could be recovered.
    InsertionError(String),
    /// The referenced course does not exist.
    NotFound(String),
    /// An internal invariant was violated.
    InternalServerError(String),
}

/// Failure of a document-store read or of the submission workflow.
#[derive(Debug)]
pub enum DbError {
    /// The document-store driver reported a failure.
    DatabaseError(String),
    /// An internal invariant was violated.
    InternalServerError(String),
    /// The referenced document does not exist.
    NotFound(String),
}

} // verus!
