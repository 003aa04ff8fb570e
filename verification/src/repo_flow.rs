//! The repository-creation workflow.
//!
//! One request walks the states generate id, resolve the course whose slug
//! is the requested template, provision the repository on the git server,
//! persist the repository document, link it to the requesting user. Any
//! failure aborts the remaining steps with a classified error; nothing is
//! retried and nothing is rolled back. The course is resolved before the
//! provisioning call, so an invalid template never creates a repository on
//! the remote host. A failure after the provisioning call still leaves an
//! orphaned repository on the remote host, or a persisted document without
//! its user back-reference: reconciling such leftovers is deliberately left
//! to the driver as an extension point rather than hidden rollback here.
//!
//! Each transition returns the next state together with the action the
//! driver must perform next; the driver feeds the action's outcome into the
//! following transition. After `Stop` there is nothing left to do.

use vstd::prelude::*;
use vstd::pervasive::unreached;
use vstd::string::StringExecFns;

use crate::errors::RepoCreationError;
use crate::ids::{generate_repo_id, is_repo_name};
use crate::models::{role_lookup, roles_unique, Course, Relationship, RelationshipEntry, Repository};
use crate::oid::{canonical_of, is_object_ref, Oid};
use crate::types::{CreateRepoRequest, DocumentType, ExpectedPracticeFrequency};

verus! {

/// The tester endpoint mapped to a template slug. A single fixed endpoint
/// serves every template today — an acknowledged placeholder; the mapping is
/// keyed by slug so further templates can be added without touching the
/// workflow.
pub open spec fn tester_url_spec(template: Seq<char>) -> Seq<char> {
    "https://github.com/dotcodeschool/rust-state-machine-tester"@
}

/// Resolve the tester endpoint for a template slug.
pub fn tester_url_for_template(template: &str) -> (r: String)
    ensures
        r@ == tester_url_spec(template@),
{
    String::from_str("https://github.com/dotcodeschool/rust-state-machine-tester")
}

/// Where one repository-creation request stands. The walk on success is
/// `IdGenerated` to `CourseResolved` to `GitProvisioned` to `Persisted` to
/// `UserLinked`; `Aborted` is reachable from every non-terminal state.
pub enum RepoCreationState {
    IdGenerated {
        repo_name: String,
        template: String,
        user_id: Oid,
        expected_practice_frequency: ExpectedPracticeFrequency,
        is_reminder_enabled: bool,
    },
    CourseResolved {
        repo_name: String,
        template: String,
        user_id: Oid,
        expected_practice_frequency: ExpectedPracticeFrequency,
        is_reminder_enabled: bool,
        course: Course,
    },
    GitProvisioned { repo_name: String, user_id: Oid },
    Persisted { repo_name: String },
    UserLinked { repo_name: String },
    Aborted { error: RepoCreationError },
}

/// What the driver must do next on behalf of the workflow.
pub enum RepoCreationAction {
    /// Look the course up by slug in the store.
    ResolveCourse { slug: String },
    /// Ask the git server to create `repo_name` from `template`.
    ProvisionRepository { repo_name: String, template: String },
    /// Insert the repository document into the store.
    InsertRepository { document: Repository },
    /// Add an edge to the stored document to the user's repository set.
    LinkRepositoryToUser { user_id: Oid, repository_id: Oid },
    /// Nothing is left to do: the workflow ended.
    Stop,
}

/// What beginning a creation returns: a fresh sixteen-digit name and a
/// course lookup when the user reference is well formed, an
/// `InvalidObjectId` abort otherwise.
pub open spec fn begin_post(
    request: CreateRepoRequest,
    r: (RepoCreationState, RepoCreationAction),
) -> bool {
    if is_object_ref(request.user_id@) {
        &&& r.0 matches RepoCreationState::IdGenerated {
            repo_name,
            template,
            user_id,
            expected_practice_frequency,
            is_reminder_enabled,
        }
        &&& is_repo_name(repo_name@)
        &&& template@ == request.repo_template@
        &&& user_id@ == canonical_of(request.user_id@)
        &&& user_id.wf()
        &&& expected_practice_frequency == request.expected_practice_frequency
        &&& is_reminder_enabled == request.is_reminder_enabled
        &&& r.1 matches RepoCreationAction::ResolveCourse { slug } && slug@
            == request.repo_template@
    } else {
        &&& r.0 matches RepoCreationState::Aborted { error }
        &&& error matches RepoCreationError::InvalidObjectId(raw) && raw@ == request.user_id@
        &&& r.1 is Stop
    }
}

/// Begin a creation: validate the user reference and generate the
/// repository name. Generation itself never fails.
pub fn begin_repo_creation(request: CreateRepoRequest) -> (r: (
    RepoCreationState,
    RepoCreationAction,
))
    ensures
        begin_post(request, r),
{
    match Oid::parse(request.user_id.as_str()) {
        None => (
            RepoCreationState::Aborted {
                error: RepoCreationError::InvalidObjectId(request.user_id),
            },
            RepoCreationAction::Stop,
        ),
        Some(user_id) => {
            let repo_name = generate_repo_id();
            let slug = request.repo_template.clone();
            (
                RepoCreationState::IdGenerated {
                    repo_name,
                    template: request.repo_template,
                    user_id,
                    expected_practice_frequency: request.expected_practice_frequency,
                    is_reminder_enabled: request.is_reminder_enabled,
                },
                RepoCreationAction::ResolveCourse { slug },
            )
        },
    }
}

/// What resolving the course returns: a driver failure aborts with
/// `DatabaseError`, an absent course with `NotFound` — in both cases before
/// any provisioning is requested — and a found course moves the workflow on
/// to the provisioning call.
pub open spec fn resolve_course_post(
    state: RepoCreationState,
    outcome: Result<Option<Course>, String>,
    r: (RepoCreationState, RepoCreationAction),
) -> bool {
    &&& state matches RepoCreationState::IdGenerated {
        repo_name,
        template,
        user_id,
        expected_practice_frequency,
        is_reminder_enabled,
    }
    &&& match outcome {
        Err(message) => {
            &&& r.0 matches RepoCreationState::Aborted { error }
            &&& error matches RepoCreationError::DatabaseError(m) && m@ == message@
            &&& r.1 is Stop
        },
        Ok(None) => {
            &&& r.0 matches RepoCreationState::Aborted { error }
            &&& error matches RepoCreationError::NotFound(slug) && slug@ == template@
            &&& r.1 is Stop
        },
        Ok(Some(course)) => {
            &&& r.0 matches RepoCreationState::CourseResolved {
                repo_name: n,
                template: t,
                user_id: u,
                expected_practice_frequency: f,
                is_reminder_enabled: b,
                course: c,
            }
            &&& n == repo_name
            &&& t == template
            &&& u == user_id
            &&& f == expected_practice_frequency
            &&& b == is_reminder_enabled
            &&& c == course
            &&& r.1 matches RepoCreationAction::ProvisionRepository { repo_name: pn, template: pt }
            &&& pn@ == repo_name@
            &&& pt@ == template@
        },
    }
}

/// Classify the course lookup's outcome. An unknown slug aborts here, so an
/// invalid template never reaches the git server.
pub fn resolve_course(state: RepoCreationState, outcome: Result<Option<Course>, String>) -> (r: (
    RepoCreationState,
    RepoCreationAction,
))
    requires
        state is IdGenerated,
    ensures
        resolve_course_post(state, outcome, r),
{
    match state {
        RepoCreationState::IdGenerated {
            repo_name,
            template,
            user_id,
            expected_practice_frequency,
            is_reminder_enabled,
        } => match outcome {
            Err(message) => (
                RepoCreationState::Aborted { error: RepoCreationError::DatabaseError(message) },
                RepoCreationAction::Stop,
            ),
            Ok(None) => (
                RepoCreationState::Aborted { error: RepoCreationError::NotFound(template) },
                RepoCreationAction::Stop,
            ),
            Ok(Some(course)) => {
                let pn = repo_name.clone();
                let pt = template.clone();
                (
                    RepoCreationState::CourseResolved {
                        repo_name,
                        template,
                        user_id,
                        expected_practice_frequency,
                        is_reminder_enabled,
                        course,
                    },
                    RepoCreationAction::ProvisionRepository { repo_name: pn, template: pt },
                )
            },
        },
        _ => unreached(),
    }
}

/// What the provisioning call's outcome returns: a failure aborts with
/// `GitServerError` before any document is built or any insert is
/// requested; success builds the repository document — the generated name,
/// the template, the mapped tester endpoint, exactly the `user` and
/// `course` edges, and the caller's preferences — and requests its insert.
pub open spec fn provision_git_post(
    state: RepoCreationState,
    outcome: Result<(), String>,
    r: (RepoCreationState, RepoCreationAction),
) -> bool {
    &&& state matches RepoCreationState::CourseResolved {
        repo_name,
        template,
        user_id,
        expected_practice_frequency,
        is_reminder_enabled,
        course,
    }
    &&& match outcome {
        Err(message) => {
            &&& r.0 matches RepoCreationState::Aborted { error }
            &&& error matches RepoCreationError::GitServerError(m) && m@ == message@
            &&& r.1 is Stop
        },
        Ok(_) => {
            &&& r.1 matches RepoCreationAction::InsertRepository { document }
            &&& document.repo_name == repo_name
            &&& document.repo_template == template
            &&& document.tester_url@ == tester_url_spec(template@)
            &&& document.relationships@.len() == 2
            &&& document.relationships@[0].role@ == "user"@
            &&& document.relationships@[0].relationship.id@ == user_id@
            &&& document.relationships@[0].relationship.doc_type == DocumentType::User
            &&& document.relationships@[1].role@ == "course"@
            &&& document.relationships@[1].relationship.id == course.id
            &&& document.relationships@[1].relationship.doc_type == DocumentType::Course
            &&& roles_unique(document.relationships@)
            &&& document.expected_practice_frequency == expected_practice_frequency
            &&& document.is_reminder_enabled == is_reminder_enabled
            &&& r.0 matches RepoCreationState::GitProvisioned { repo_name: n, user_id: u }
            &&& n@ == repo_name@
            &&& u == user_id
        },
    }
}

/// Classify the provisioning call's outcome and, on success, build the
/// repository document to persist.
pub fn provision_git_result(state: RepoCreationState, outcome: Result<(), String>) -> (r: (
    RepoCreationState,
    RepoCreationAction,
))
    requires
        state is CourseResolved,
    ensures
        provision_git_post(state, outcome, r),
{
    match state {
        RepoCreationState::CourseResolved {
            repo_name,
            template,
            user_id,
            expected_practice_frequency,
            is_reminder_enabled,
            course,
        } => match outcome {
            Err(message) => (
                RepoCreationState::Aborted { error: RepoCreationError::GitServerError(message) },
                RepoCreationAction::Stop,
            ),
            Ok(_) => {
                let tester_url = tester_url_for_template(template.as_str());
                let mut relationships: Vec<RelationshipEntry> = Vec::new();
                relationships.push(
                    RelationshipEntry {
                        role: String::from_str("user"),
                        relationship: Relationship {
                            id: user_id.clone(),
                            doc_type: DocumentType::User,
                        },
                    },
                );
                relationships.push(
                    RelationshipEntry {
                        role: String::from_str("course"),
                        relationship: Relationship { id: course.id, doc_type: DocumentType::Course },
                    },
                );
                proof {
                    reveal_strlit("user");
                    reveal_strlit("course");
                    assert("user"@.len() == 4);
                    assert("course"@.len() == 6);
                    assert(relationships@[0].role@ == "user"@);
                    assert(relationships@[1].role@ == "course"@);
                    assert(relationships@[0].role@ != relationships@[1].role@);
                }
                let state_name = repo_name.clone();
                let document = Repository {
                    repo_name,
                    repo_template: template,
                    tester_url,
                    relationships,
                    expected_practice_frequency,
                    is_reminder_enabled,
                };
                (
                    RepoCreationState::GitProvisioned { repo_name: state_name, user_id },
                    RepoCreationAction::InsertRepository { document },
                )
            },
        },
        _ => unreached(),
    }
}

/// What the insert's outcome returns: a driver failure aborts with
/// `DatabaseError`; a write that yields no identity aborts with
/// `InsertionError`; a recovered identity requests the user link.
pub open spec fn insert_result_post(
    state: RepoCreationState,
    outcome: Result<Option<Oid>, String>,
    r: (RepoCreationState, RepoCreationAction),
) -> bool {
    &&& state matches RepoCreationState::GitProvisioned { repo_name, user_id }
    &&& match outcome {
        Err(message) => {
            &&& r.0 matches RepoCreationState::Aborted { error }
            &&& error matches RepoCreationError::DatabaseError(m) && m@ == message@
            &&& r.1 is Stop
        },
        Ok(None) => {
            &&& r.0 matches RepoCreationState::Aborted { error }
            &&& error matches RepoCreationError::InsertionError(m) && m@
                == "Failed to get ObjectId after insertion"@
            &&& r.1 is Stop
        },
        Ok(Some(repository_id)) => {
            &&& r.0 matches RepoCreationState::Persisted { repo_name: n } && n == repo_name
            &&& r.1 matches RepoCreationAction::LinkRepositoryToUser { user_id: u, repository_id: rid }
            &&& u == user_id
            &&& rid == repository_id
        },
    }
}

/// Classify the insert's outcome: the store must hand back the identity of
/// the written document, which the user's repository set will reference.
pub fn insert_repository_result(
    state: RepoCreationState,
    outcome: Result<Option<Oid>, String>,
) -> (r: (RepoCreationState, RepoCreationAction))
    requires
        state is GitProvisioned,
    ensures
        insert_result_post(state, outcome, r),
{
    match state {
        RepoCreationState::GitProvisioned { repo_name, user_id } => match outcome {
            Err(message) => (
                RepoCreationState::Aborted { error: RepoCreationError::DatabaseError(message) },
                RepoCreationAction::Stop,
            ),
            Ok(None) => (
                RepoCreationState::Aborted {
                    error: RepoCreationError::InsertionError(
                        String::from_str("Failed to get ObjectId after insertion"),
                    ),
                },
                RepoCreationAction::Stop,
            ),
            Ok(Some(repository_id)) => (
                RepoCreationState::Persisted { repo_name },
                RepoCreationAction::LinkRepositoryToUser { user_id, repository_id },
            ),
        },
        _ => unreached(),
    }
}

/// What the user link's outcome returns: a driver failure aborts with
/// `DatabaseError` — the document then exists without its back-reference —
/// and success completes the workflow with the repository's name.
pub open spec fn link_result_post(
    state: RepoCreationState,
    outcome: Result<(), String>,
    r: (RepoCreationState, RepoCreationAction),
) -> bool {
    &&& state matches RepoCreationState::Persisted { repo_name }
    &&& match outcome {
        Err(message) => {
            &&& r.0 matches RepoCreationState::Aborted { error }
            &&& error matches RepoCreationError::DatabaseError(m) && m@ == message@
            &&& r.1 is Stop
        },
        Ok(_) => {
            &&& r.0 matches RepoCreationState::UserLinked { repo_name: n } && n == repo_name
            &&& r.1 is Stop
        },
    }
}

/// Classify the user link's outcome; success is terminal.
pub fn link_user_result(state: RepoCreationState, outcome: Result<(), String>) -> (r: (
    RepoCreationState,
    RepoCreationAction,
))
    requires
        state is Persisted,
    ensures
        link_result_post(state, outcome, r),
{
    match state {
        RepoCreationState::Persisted { repo_name } => match outcome {
            Err(message) => (
                RepoCreationState::Aborted { error: RepoCreationError::DatabaseError(message) },
                RepoCreationAction::Stop,
            ),
            Ok(_) => (RepoCreationState::UserLinked { repo_name }, RepoCreationAction::Stop),
        },
        _ => unreached(),
    }
}

/// The git server accepted a provisioning call exactly when it answered
/// with a 2xx status; everything else is a hard failure.
pub fn git_response_ok(status: u16) -> (r: bool)
    ensures
        r == (200 <= status < 300),
{
    200 <= status && status < 300
}

/// An unknown template slug aborts the workflow with `NotFound` carrying
/// that slug, and the next action is `Stop`: an invalid template never
/// causes a provisioning call.
pub proof fn lemma_unknown_template_aborts(
    state: RepoCreationState,
    r: (RepoCreationState, RepoCreationAction),
)
    requires
        resolve_course_post(state, Ok(None), r),
    ensures
        state matches RepoCreationState::IdGenerated { template, .. } && r.0
            matches RepoCreationState::Aborted { error } && error
            matches RepoCreationError::NotFound(slug) && slug@ == template@,
        r.1 is Stop,
{
}

/// A provisioning call is requested only by a course resolution that found
/// the course; every other outcome aborts the workflow at once.
pub proof fn lemma_provisioning_needs_resolved_course(
    state: RepoCreationState,
    outcome: Result<Option<Course>, String>,
    r: (RepoCreationState, RepoCreationAction),
)
    requires
        resolve_course_post(state, outcome, r),
    ensures
        r.1 is ProvisionRepository ==> outcome matches Ok(Some(_)),
        !(outcome matches Ok(Some(_))) ==> r.0 is Aborted && r.1 is Stop,
{
}

/// A failed provisioning call aborts the workflow with `GitServerError`:
/// no repository document is built, no insert and no user update is
/// requested.
pub proof fn lemma_git_failure_aborts(
    state: RepoCreationState,
    message: String,
    r: (RepoCreationState, RepoCreationAction),
)
    requires
        provision_git_post(state, Err(message), r),
    ensures
        r.0 matches RepoCreationState::Aborted { error } && error
            matches RepoCreationError::GitServerError(m) && m@ == message@,
        r.1 is Stop,
{
}

/// An insert is requested only after the git server accepted the
/// provisioning call.
pub proof fn lemma_insert_needs_provisioned_repository(
    state: RepoCreationState,
    outcome: Result<(), String>,
    r: (RepoCreationState, RepoCreationAction),
)
    requires
        provision_git_post(state, outcome, r),
    ensures
        r.1 is InsertRepository ==> outcome matches Ok(_),
        outcome matches Err(_) ==> r.0 is Aborted && r.1 is Stop,
{
}

/// A user update is requested only after the store persisted the document
/// and handed its identity back.
pub proof fn lemma_link_needs_persisted_document(
    state: RepoCreationState,
    outcome: Result<Option<Oid>, String>,
    r: (RepoCreationState, RepoCreationAction),
)
    requires
        insert_result_post(state, outcome, r),
    ensures
        r.1 is LinkRepositoryToUser ==> outcome matches Ok(Some(_)),
        !(outcome matches Ok(Some(_))) ==> r.0 is Aborted && r.1 is Stop,
{
}

/// A completed workflow created what the request asked for: the inserted
/// document carries the generated sixteen-digit name — the name the
/// workflow ends with — the request's template, the tester endpoint mapped
/// to that template, exactly a `user` edge to the requesting user and a
/// `course` edge to the resolved course, and the caller's preferences; and
/// the requested user update references the requesting user and the stored
/// document's identity.
pub proof fn lemma_creation_success_shape(
    request: CreateRepoRequest,
    r1: (RepoCreationState, RepoCreationAction),
    course: Course,
    r2: (RepoCreationState, RepoCreationAction),
    r3: (RepoCreationState, RepoCreationAction),
    repository_id: Oid,
    r4: (RepoCreationState, RepoCreationAction),
    r5: (RepoCreationState, RepoCreationAction),
)
    requires
        begin_post(request, r1),
        resolve_course_post(r1.0, Ok(Some(course)), r2),
        provision_git_post(r2.0, Ok(()), r3),
        insert_result_post(r3.0, Ok(Some(repository_id)), r4),
        link_result_post(r4.0, Ok(()), r5),
    ensures
        is_object_ref(request.user_id@),
        r5.0 matches RepoCreationState::UserLinked { repo_name } && is_repo_name(repo_name@),
        r5.0 matches RepoCreationState::UserLinked { repo_name } && r3.1
            matches RepoCreationAction::InsertRepository { document } && {
            &&& document.repo_name@ == repo_name@
            &&& document.repo_template@ == request.repo_template@
            &&& document.tester_url@ == tester_url_spec(request.repo_template@)
            &&& roles_unique(document.relationships@)
            &&& role_lookup(document.relationships@, "user"@) matches Some(user_edge)
                && user_edge.id@ == canonical_of(request.user_id@) && user_edge.doc_type
                == DocumentType::User
            &&& role_lookup(document.relationships@, "course"@) matches Some(course_edge)
                && course_edge.id@ == course.id@ && course_edge.doc_type == DocumentType::Course
            &&& document.expected_practice_frequency == request.expected_practice_frequency
            &&& document.is_reminder_enabled == request.is_reminder_enabled
        },
        r4.1 matches RepoCreationAction::LinkRepositoryToUser { user_id, repository_id: rid }
            && user_id@ == canonical_of(request.user_id@) && rid == repository_id,
{
    if !is_object_ref(request.user_id@) {
        assert(r1.0 is Aborted);
        assert(false);
    }
    let document = r3.1->InsertRepository_document;
    let entries = document.relationships@;
    assert(role_lookup(entries, "user"@) == Some(entries[0].relationship));
    reveal_strlit("user");
    reveal_strlit("course");
    assert(entries[0].role@ != "course"@);
    assert(entries.drop_first()[0] == entries[1]);
    assert(role_lookup(entries.drop_first(), "course"@) == Some(entries[1].relationship));
}

} // verus!
