//! The response mapper: what each workflow result becomes on the wire.
//!
//! `NotFound` maps to a not-found response; every other failure maps to a
//! generic server-error response whose body deliberately leaks no internal
//! detail.

use vstd::prelude::*;
use vstd::string::StringExecFns;

use crate::errors::{DbError, RepoCreationError};
use crate::types::CreateRepoResponse;

verus! {

/// The HTTP status a repository-creation failure maps to: not-found for
/// `NotFound`, a generic server error for everything else.
pub open spec fn repo_creation_error_status(error: RepoCreationError) -> u16 {
    match error {
        RepoCreationError::NotFound(_) => 404,
        _ => 500,
    }
}

/// The response body a repository-creation failure maps to.
pub open spec fn repo_creation_error_body(error: RepoCreationError) -> Seq<char> {
    match error {
        RepoCreationError::GitServerError(_) => "Failed to communicate with git server"@,
        RepoCreationError::DatabaseError(_) => "Failed to save repository to database"@,
        RepoCreationError::InvalidObjectId(_) => "Invalid object id"@,
        RepoCreationError::InsertionError(_) => "Failed to insert repository into database"@,
        RepoCreationError::NotFound(_) => "404 Not Found"@,
        RepoCreationError::InternalServerError(_) => "500 Internal Server Error"@,
    }
}

/// Map a repository-creation failure to its wire status and body.
pub fn repo_creation_error_response(error: &RepoCreationError) -> (r: (u16, String))
    ensures
        r.0 == repo_creation_error_status(*error),
        r.1@ == repo_creation_error_body(*error),
{
    match error {
        RepoCreationError::GitServerError(_) => (
            500,
            String::from_str("Failed to communicate with git server"),
        ),
        RepoCreationError::DatabaseError(_) => (
            500,
            String::from_str("Failed to save repository to database"),
        ),
        RepoCreationError::InvalidObjectId(_) => (500, String::from_str("Invalid object id")),
        RepoCreationError::InsertionError(_) => (
            500,
            String::from_str("Failed to insert repository into database"),
        ),
        RepoCreationError::NotFound(_) => (404, String::from_str("404 Not Found")),
        RepoCreationError::InternalServerError(_) => (
            500,
            String::from_str("500 Internal Server Error"),
        ),
    }
}

/// The HTTP status a store failure maps to: not-found for `NotFound`, a
/// generic server error for everything else.
pub open spec fn db_error_status(error: DbError) -> u16 {
    match error {
        DbError::NotFound(_) => 404,
        _ => 500,
    }
}

/// The response body a store failure maps to.
pub open spec fn db_error_body(error: DbError) -> Seq<char> {
    match error {
        DbError::DatabaseError(_) => "Failed to save submission to database"@,
        DbError::InternalServerError(_) => "500 Internal Server Error"@,
        DbError::NotFound(_) => "404 Not Found"@,
    }
}

/// Map a store failure to its wire status and body.
pub fn db_error_response(error: &DbError) -> (r: (u16, String))
    ensures
        r.0 == db_error_status(*error),
        r.1@ == db_error_body(*error),
{
    match error {
        DbError::DatabaseError(_) => (
            500,
            String::from_str("Failed to save submission to database"),
        ),
        DbError::InternalServerError(_) => (500, String::from_str("500 Internal Server Error")),
        DbError::NotFound(_) => (404, String::from_str("404 Not Found")),
    }
}

/// Build the success payload of a repository creation: the new name and
/// the template it was created from.
pub fn repository_creation_success(repo_name: String, repo_template: String) -> (r:
    CreateRepoResponse)
    ensures
        r.repo_name == repo_name,
        r.repo_template == repo_template,
{
    CreateRepoResponse { repo_name, repo_template }
}

} // verus!
