//! The submission-recording workflow.
//!
//! One request walks the states resolve the repository by name, allocate a
//! log-stream identifier and address, persist the submission document. A
//! driver failure or an unknown repository aborts with a classified error;
//! nothing is retried. Submissions are deliberately not deduplicated:
//! resubmitting the same repository and commit records a second document
//! under a fresh identifier.
//!
//! As in the repository workflow, each transition returns the next state
//! and the action the driver must perform next.

use vstd::prelude::*;
use vstd::pervasive::unreached;
use vstd::string::StringExecFns;

use crate::errors::DbError;
use crate::ids::{generate_submission_id, is_uuid_string};
use crate::models::{Repository, Submission};
use crate::types::{CreateSubmissionRequest, CreateSubmissionResponse};

verus! {

/// Configuration injected into the workflow at construction: the external
/// addresses woven into every successful response.
pub struct SubmissionConfig {
    /// Base address under which log streams are allocated.
    pub logstream_base_url: String,
    /// Websocket endpoint handed back to the caller verbatim.
    pub ws_url: String,
}

/// Join a base address and an identifier with a single slash.
pub fn join_with_slash(base: &str, tail: &str) -> (r: String)
    ensures
        r@ == base@ + "/"@ + tail@,
{
    let mut out = base.to_owned();
    out.append("/");
    out.append(tail);
    out
}

/// Where one submission request stands. The walk on success is `Started`
/// to `RepoResolved` to `IdAllocated` to `Persisted`; `Aborted` is
/// reachable from every non-terminal state.
pub enum SubmissionState {
    Started { repo_name: String, commit_sha: String },
    RepoResolved { repo_name: String, commit_sha: String, tester_url: String },
    IdAllocated { response: CreateSubmissionResponse },
    Persisted { response: CreateSubmissionResponse },
    Aborted { error: DbError },
}

/// What the driver must do next on behalf of the workflow.
pub enum SubmissionAction {
    /// Look the repository up by name in the store.
    FetchRepository { repo_name: String },
    /// Call `allocate_logstream` with the configuration and the current
    /// time; this step performs no outside work.
    AllocateLogstream,
    /// Insert the submission document into the store.
    InsertSubmission { document: Submission },
    /// Nothing is left to do: the workflow ended.
    Stop,
}

/// What beginning a submission returns: the request's fields and a
/// repository lookup. This step never fails.
pub open spec fn begin_submission_post(
    request: CreateSubmissionRequest,
    r: (SubmissionState, SubmissionAction),
) -> bool {
    &&& r.0 matches SubmissionState::Started { repo_name, commit_sha }
    &&& repo_name == request.repo_name
    &&& commit_sha == request.commit_sha
    &&& r.1 matches SubmissionAction::FetchRepository { repo_name: n } && n@
        == request.repo_name@
}

/// Begin a submission: the repository named by the request must exist, so
/// the first action is its lookup.
pub fn begin_submission(request: CreateSubmissionRequest) -> (r: (
    SubmissionState,
    SubmissionAction,
))
    ensures
        begin_submission_post(request, r),
{
    let lookup_name = request.repo_name.clone();
    (
        SubmissionState::Started {
            repo_name: request.repo_name,
            commit_sha: request.commit_sha,
        },
        SubmissionAction::FetchRepository { repo_name: lookup_name },
    )
}

/// What resolving the repository returns: a driver failure aborts with
/// `DatabaseError`, an absent repository with `NotFound` carrying the
/// name — in both cases before any document is built — and a found
/// repository moves the workflow on with that repository's stored tester
/// endpoint.
pub open spec fn resolve_repository_post(
    state: SubmissionState,
    outcome: Result<Option<Repository>, String>,
    r: (SubmissionState, SubmissionAction),
) -> bool {
    &&& state matches SubmissionState::Started { repo_name, commit_sha }
    &&& match outcome {
        Err(message) => {
            &&& r.0 matches SubmissionState::Aborted { error }
            &&& error matches DbError::DatabaseError(m) && m@ == message@
            &&& r.1 is Stop
        },
        Ok(None) => {
            &&& r.0 matches SubmissionState::Aborted { error }
            &&& error matches DbError::NotFound(m) && m@ == repo_name@
            &&& r.1 is Stop
        },
        Ok(Some(repository)) => {
            &&& r.0 matches SubmissionState::RepoResolved {
                repo_name: n,
                commit_sha: c,
                tester_url: t,
            }
            &&& n == repo_name
            &&& c == commit_sha
            &&& t == repository.tester_url
            &&& r.1 is AllocateLogstream
        },
    }
}

/// Classify the repository lookup's outcome. An unknown name aborts here,
/// so no submission is ever recorded against a repository that does not
/// exist.
pub fn resolve_repository(
    state: SubmissionState,
    outcome: Result<Option<Repository>, String>,
) -> (r: (SubmissionState, SubmissionAction))
    requires
        state is Started,
    ensures
        resolve_repository_post(state, outcome, r),
{
    match state {
        SubmissionState::Started { repo_name, commit_sha } => match outcome {
            Err(message) => (
                SubmissionState::Aborted { error: DbError::DatabaseError(message) },
                SubmissionAction::Stop,
            ),
            Ok(None) => (
                SubmissionState::Aborted { error: DbError::NotFound(repo_name) },
                SubmissionAction::Stop,
            ),
            Ok(Some(repository)) => (
                SubmissionState::RepoResolved {
                    repo_name,
                    commit_sha,
                    tester_url: repository.tester_url,
                },
                SubmissionAction::AllocateLogstream,
            ),
        },
        _ => unreached(),
    }
}

/// What allocating the log stream returns: a fresh UUID identifier, the
/// address derived by joining the configured base with that identifier —
/// pure string composition, no outside call — and the submission document
/// to insert, stamped with the supplied clock reading. This step never
/// fails.
pub open spec fn allocate_post(
    state: SubmissionState,
    config: SubmissionConfig,
    now_millis: i64,
    r: (SubmissionState, SubmissionAction),
) -> bool {
    &&& state matches SubmissionState::RepoResolved { repo_name, commit_sha, tester_url }
    &&& r.0 matches SubmissionState::IdAllocated { response }
    &&& r.1 matches SubmissionAction::InsertSubmission { document }
    &&& is_uuid_string(response.logstream_id@)
    &&& response.logstream_url@ == config.logstream_base_url@ + "/"@ + response.logstream_id@
    &&& response.ws_url@ == config.ws_url@
    &&& response.tester_url == tester_url
    &&& document.repo_name == repo_name
    &&& document.commit_sha == commit_sha
    &&& document.logstream_id@ == response.logstream_id@
    &&& document.logstream_url@ == response.logstream_url@
    &&& document.relationships@.len() == 0
    &&& document.created_at == now_millis
}

/// Allocate the submission's identifier and log-stream address and build
/// the document to persist. `now_millis` is the driver's clock reading at
/// insert time, milliseconds since the Unix epoch.
pub fn allocate_logstream(
    state: SubmissionState,
    config: &SubmissionConfig,
    now_millis: i64,
) -> (r: (SubmissionState, SubmissionAction))
    requires
        state is RepoResolved,
    ensures
        allocate_post(state, *config, now_millis, r),
{
    match state {
        SubmissionState::RepoResolved { repo_name, commit_sha, tester_url } => {
            let logstream_id = generate_submission_id();
            let logstream_url = join_with_slash(
                config.logstream_base_url.as_str(),
                logstream_id.as_str(),
            );
            let document = Submission {
                repo_name,
                commit_sha,
                logstream_id: logstream_id.clone(),
                logstream_url: logstream_url.clone(),
                relationships: Vec::new(),
                created_at: now_millis,
            };
            let response = CreateSubmissionResponse {
                logstream_url,
                logstream_id,
                ws_url: config.ws_url.clone(),
                tester_url,
            };
            (
                SubmissionState::IdAllocated { response },
                SubmissionAction::InsertSubmission { document },
            )
        },
        _ => unreached(),
    }
}

/// What the insert's outcome returns: a driver failure aborts with
/// `DatabaseError`; success completes the workflow with the response built
/// at allocation.
pub open spec fn complete_post(
    state: SubmissionState,
    outcome: Result<(), String>,
    r: (SubmissionState, SubmissionAction),
) -> bool {
    &&& state matches SubmissionState::IdAllocated { response }
    &&& match outcome {
        Err(message) => {
            &&& r.0 matches SubmissionState::Aborted { error }
            &&& error matches DbError::DatabaseError(m) && m@ == message@
            &&& r.1 is Stop
        },
        Ok(_) => {
            &&& r.0 matches SubmissionState::Persisted { response: p } && p == response
            &&& r.1 is Stop
        },
    }
}

/// Classify the insert's outcome; success is terminal.
pub fn complete_submission(state: SubmissionState, outcome: Result<(), String>) -> (r: (
    SubmissionState,
    SubmissionAction,
))
    requires
        state is IdAllocated,
    ensures
        complete_post(state, outcome, r),
{
    match state {
        SubmissionState::IdAllocated { response } => match outcome {
            Err(message) => (
                SubmissionState::Aborted { error: DbError::DatabaseError(message) },
                SubmissionAction::Stop,
            ),
            Ok(_) => (SubmissionState::Persisted { response }, SubmissionAction::Stop),
        },
        _ => unreached(),
    }
}

/// A submission against a repository name that does not exist aborts with
/// `NotFound` carrying that name, and the next action is `Stop`: no
/// submission document is built or inserted.
pub proof fn lemma_unknown_repository_aborts(
    state: SubmissionState,
    r: (SubmissionState, SubmissionAction),
)
    requires
        resolve_repository_post(state, Ok(None), r),
    ensures
        state matches SubmissionState::Started { repo_name, .. } && r.0
            matches SubmissionState::Aborted { error } && error matches DbError::NotFound(m)
            && m@ == repo_name@,
        r.1 is Stop,
{
}

/// An insert is requested only after the repository was found; every other
/// lookup outcome aborts the workflow at once.
pub proof fn lemma_insert_needs_resolved_repository(
    state: SubmissionState,
    outcome: Result<Option<Repository>, String>,
    r: (SubmissionState, SubmissionAction),
)
    requires
        resolve_repository_post(state, outcome, r),
    ensures
        !(outcome matches Ok(Some(_))) ==> r.0 is Aborted && r.1 is Stop,
        r.1 is AllocateLogstream ==> outcome matches Ok(Some(_)),
{
}

/// A completed submission records what the caller is told: the returned
/// log-stream address is the configured base joined with the returned
/// identifier, the returned tester endpoint is the resolved repository's
/// stored one, and the inserted document carries the request's repository
/// name and commit, the same identifier and address, and the insert-time
/// clock reading — which is no earlier than any reading taken before it,
/// such as at request start.
pub proof fn lemma_submission_success_shape(
    request: CreateSubmissionRequest,
    r1: (SubmissionState, SubmissionAction),
    repository: Repository,
    r2: (SubmissionState, SubmissionAction),
    config: SubmissionConfig,
    start_millis: i64,
    now_millis: i64,
    r3: (SubmissionState, SubmissionAction),
    r4: (SubmissionState, SubmissionAction),
)
    requires
        begin_submission_post(request, r1),
        resolve_repository_post(r1.0, Ok(Some(repository)), r2),
        allocate_post(r2.0, config, now_millis, r3),
        complete_post(r3.0, Ok(()), r4),
        start_millis <= now_millis,
    ensures
        r4.0 matches SubmissionState::Persisted { response } && {
            &&& is_uuid_string(response.logstream_id@)
            &&& response.logstream_url@ == config.logstream_base_url@ + "/"@
                + response.logstream_id@
            &&& response.tester_url@ == repository.tester_url@
            &&& response.ws_url@ == config.ws_url@
        },
        r3.1 matches SubmissionAction::InsertSubmission { document } && r4.0
            matches SubmissionState::Persisted { response } && {
            &&& document.repo_name@ == request.repo_name@
            &&& document.commit_sha@ == request.commit_sha@
            &&& document.logstream_id@ == response.logstream_id@
            &&& document.logstream_url@ == response.logstream_url@
            &&& document.relationships@.len() == 0
            &&& document.created_at == now_millis
            &&& start_millis <= document.created_at
        },
{
}

/// Submissions are deliberately not deduplicated: two runs that resolved
/// the same repository name and commit each request their own insert,
/// whatever was recorded before; and whenever the two allocated
/// identifiers differ — as two random UUIDs do with overwhelming
/// probability — the two inserted documents differ.
pub proof fn lemma_resubmission_inserts_again(
    s1: SubmissionState,
    s2: SubmissionState,
    config1: SubmissionConfig,
    config2: SubmissionConfig,
    now1: i64,
    now2: i64,
    ra: (SubmissionState, SubmissionAction),
    rb: (SubmissionState, SubmissionAction),
)
    requires
        allocate_post(s1, config1, now1, ra),
        allocate_post(s2, config2, now2, rb),
        s1->RepoResolved_repo_name@ == s2->RepoResolved_repo_name@,
        s1->RepoResolved_commit_sha@ == s2->RepoResolved_commit_sha@,
    ensures
        ra.1 matches SubmissionAction::InsertSubmission { document: d1 } && rb.1
            matches SubmissionAction::InsertSubmission { document: d2 } && {
            &&& d1.repo_name@ == d2.repo_name@
            &&& d1.commit_sha@ == d2.commit_sha@
            &&& (d1.logstream_id@ != d2.logstream_id@ ==> d1 != d2)
        },
{
}

} // verus!
