//! Classification of single document-store round trips.
//!
//! The driver performs each lookup as one round trip and hands the raw
//! outcome — the found document, nothing, or a driver failure message —
//! to these functions, which turn it into the typed result the endpoint
//! returns.

use vstd::prelude::*;

use crate::errors::DbError;
use crate::models::{Course, Repository};
use crate::oid::{canonical_of, is_object_ref, Oid};

verus! {

/// Validate the raw course identifier of a fetch-course request. A
/// malformed reference cannot match any stored course and is rejected
/// before any round trip.
pub fn course_reference(course_id: &str) -> (r: Result<Oid, DbError>)
    ensures
        r matches Ok(_) <==> is_object_ref(course_id@),
        r matches Ok(oid) ==> oid@ == canonical_of(course_id@) && oid.wf(),
        r matches Err(e) ==> e matches DbError::InternalServerError(m) && m@ == course_id@,
{
    match Oid::parse(course_id) {
        Some(oid) => Ok(oid),
        None => Err(DbError::InternalServerError(course_id.to_owned())),
    }
}

/// Classify a course lookup by id: the course itself when one matched,
/// `NotFound` carrying the queried id when none did, `DatabaseError` when
/// the driver failed.
pub fn course_from_fetch(course_id: &Oid, outcome: Result<Option<Course>, String>) -> (r: Result<
    Course,
    DbError,
>)
    ensures
        outcome matches Err(m) ==> r matches Err(e) && e matches DbError::DatabaseError(m2)
            && m2@ == m@,
        outcome matches Ok(None) ==> r matches Err(e) && e matches DbError::NotFound(m)
            && canonical_of(m@) == course_id@,
        outcome matches Ok(Some(course)) ==> r matches Ok(found) && found == course,
{
    match outcome {
        Err(m) => Err(DbError::DatabaseError(m)),
        Ok(None) => Err(DbError::NotFound(course_id.hex_string())),
        Ok(Some(course)) => Ok(course),
    }
}

/// Classify a repository lookup by name: the repository itself when one
/// matched, `NotFound` carrying the queried name when none did,
/// `DatabaseError` when the driver failed.
pub fn repository_from_fetch(
    repo_name: &str,
    outcome: Result<Option<Repository>, String>,
) -> (r: Result<Repository, DbError>)
    ensures
        outcome matches Err(m) ==> r matches Err(e) && e matches DbError::DatabaseError(m2)
            && m2@ == m@,
        outcome matches Ok(None) ==> r matches Err(e) && e matches DbError::NotFound(m) && m@
            == repo_name@,
        outcome matches Ok(Some(repository)) ==> r matches Ok(found) && found == repository,
{
    match outcome {
        Err(m) => Err(DbError::DatabaseError(m)),
        Ok(None) => Err(DbError::NotFound(repo_name.to_owned())),
        Ok(Some(repository)) => Ok(repository),
    }
}

} // verus!
