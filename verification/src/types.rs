//! Commands accepted from the HTTP layer and the results returned to it,
//! together with the small closed enums shared by every document.

use vstd::prelude::*;

use crate::models::RelationshipEntry;

verus! {

/// Tags the far end of a relationship: which collection the referenced
/// document lives in.
#[derive(Clone, Copy, Debug, PartialEq, Eq, Structural)]
pub enum DocumentType {
    Repository,
    User,
    Course,
}

/// How often the learner intends to practice in a repository.
#[derive(Clone, Copy, Debug, PartialEq, Eq, Structural)]
pub enum ExpectedPracticeFrequency {
    EveryDay,
    OnceAWeek,
    OnceAMonth,
}

/// Command to create a repository for a user from a course template.
pub struct CreateRepoRequest {
    /// Slug of the course whose template is cloned.
    pub repo_template: String,
    /// Reference to the requesting user, as a raw identifier string.
    pub user_id: String,
    pub expected_practice_frequency: ExpectedPracticeFrequency,
    pub is_reminder_enabled: bool,
}

/// Successful result of a repository creation.
pub struct CreateRepoResponse {
    pub repo_name: String,
    pub repo_template: String,
}

/// Command to record a test submission against an existing repository.
pub struct CreateSubmissionRequest {
    pub repo_name: String,
    pub commit_sha: String,
}

/// Successful result of a submission creation: where the caller can follow
/// the test run.
pub struct CreateSubmissionResponse {
    pub logstream_url: String,
    pub logstream_id: String,
    pub ws_url: String,
    pub tester_url: String,
}

/// Command to update mutable fields of a repository document. The update
/// endpoint itself is outside this core; the type is part of the wire
/// contract.
pub struct UpdateRepoRequest {
    pub expected_practice_frequency: Option<ExpectedPracticeFrequency>,
    pub is_reminder_enabled: Option<bool>,
    pub test_ok: Option<bool>,
    pub relationships: Option<Vec<RelationshipEntry>>,
}

/// Result of a repository update, echoing the stored document.
pub struct UpdateRepoResponse {
    pub repo_name: String,
    pub repo_template: String,
    pub tester_url: String,
    pub test_ok: Option<bool>,
    pub relationships: Vec<RelationshipEntry>,
    pub expected_practice_frequency: ExpectedPracticeFrequency,
    pub is_reminder_enabled: bool,
}

} // verus!
