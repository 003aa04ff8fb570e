use repo_service::errors::RepoCreationError;
use repo_service::models::{add_repository_to_user, Course, User};
use repo_service::oid::Oid;
use repo_service::repo_flow::{
    begin_repo_creation, git_response_ok, insert_repository_result, link_user_result,
    provision_git_result, resolve_course, RepoCreationAction, RepoCreationState,
};
use repo_service::types::{CreateRepoRequest, DocumentType, ExpectedPracticeFrequency};

const USER_HEX: &str = "000000000000000000000001";
const COURSE_HEX: &str = "00000000000000000000000c";
const DOC_HEX: &str = "0000000000000000000000d1";
const TESTER: &str = "https://github.com/dotcodeschool/rust-state-machine-tester";

fn request() -> CreateRepoRequest {
    CreateRepoRequest {
        repo_template: "rust-state-machine".to_string(),
        user_id: USER_HEX.to_string(),
        expected_practice_frequency: ExpectedPracticeFrequency::OnceAWeek,
        is_reminder_enabled: true,
    }
}

fn course() -> Course {
    Course {
        id: Oid::parse(COURSE_HEX).unwrap(),
        slug: "rust-state-machine".to_string(),
        name: "Rust State Machine".to_string(),
        tester_url: TESTER.to_string(),
        relationships: vec![],
    }
}

fn is_lower_hex(c: char) -> bool {
    c.is_ascii_digit() || ('a'..='f').contains(&c)
}

#[test]
fn malformed_user_reference_aborts_before_anything() {
    let mut request = request();
    request.user_id = "not-a-reference".to_string();
    let (state, action) = begin_repo_creation(request);
    match state {
        RepoCreationState::Aborted { error: RepoCreationError::InvalidObjectId(raw) } => {
            assert_eq!(raw, "not-a-reference");
        }
        _ => panic!("expected an InvalidObjectId abort"),
    }
    assert!(matches!(action, RepoCreationAction::Stop));
}

#[test]
fn begin_generates_name_and_asks_for_the_course() {
    let (state, action) = begin_repo_creation(request());
    match &state {
        RepoCreationState::IdGenerated { repo_name, template, .. } => {
            assert_eq!(repo_name.chars().count(), 16);
            assert!(repo_name.chars().all(is_lower_hex));
            assert_eq!(template, "rust-state-machine");
        }
        _ => panic!("expected IdGenerated"),
    }
    match action {
        RepoCreationAction::ResolveCourse { slug } => assert_eq!(slug, "rust-state-machine"),
        _ => panic!("expected a course lookup"),
    }
}

#[test]
fn unknown_template_is_not_found_and_never_provisions() {
    let (state, _) = begin_repo_creation(request());
    let (state, action) = resolve_course(state, Ok(None));
    match state {
        RepoCreationState::Aborted { error: RepoCreationError::NotFound(slug) } => {
            assert_eq!(slug, "rust-state-machine");
        }
        _ => panic!("expected a NotFound abort"),
    }
    assert!(matches!(action, RepoCreationAction::Stop));
}

#[test]
fn course_lookup_failure_is_a_database_error() {
    let (state, _) = begin_repo_creation(request());
    let (state, action) = resolve_course(state, Err("connection reset".to_string()));
    match state {
        RepoCreationState::Aborted { error: RepoCreationError::DatabaseError(m) } => {
            assert_eq!(m, "connection reset");
        }
        _ => panic!("expected a DatabaseError abort"),
    }
    assert!(matches!(action, RepoCreationAction::Stop));
}

#[test]
fn git_failure_aborts_without_insert_or_user_update() {
    let (state, _) = begin_repo_creation(request());
    let (state, action) = resolve_course(state, Ok(Some(course())));
    match &action {
        RepoCreationAction::ProvisionRepository { template, .. } => {
            assert_eq!(template, "rust-state-machine");
        }
        _ => panic!("expected a provisioning call"),
    }
    let (state, action) = provision_git_result(state, Err("502 Bad Gateway".to_string()));
    match state {
        RepoCreationState::Aborted { error: RepoCreationError::GitServerError(m) } => {
            assert_eq!(m, "502 Bad Gateway");
        }
        _ => panic!("expected a GitServerError abort"),
    }
    assert!(matches!(action, RepoCreationAction::Stop));
}

#[test]
fn insert_without_identity_is_an_insertion_error() {
    let (state, _) = begin_repo_creation(request());
    let (state, _) = resolve_course(state, Ok(Some(course())));
    let (state, _) = provision_git_result(state, Ok(()));
    let (state, action) = insert_repository_result(state, Ok(None));
    match state {
        RepoCreationState::Aborted { error: RepoCreationError::InsertionError(m) } => {
            assert_eq!(m, "Failed to get ObjectId after insertion");
        }
        _ => panic!("expected an InsertionError abort"),
    }
    assert!(matches!(action, RepoCreationAction::Stop));
}

#[test]
fn successful_creation_builds_the_expected_document_and_links_the_user() {
    let (state, _) = begin_repo_creation(request());
    let (state, _) = resolve_course(state, Ok(Some(course())));
    let (state, action) = provision_git_result(state, Ok(()));

    let document = match action {
        RepoCreationAction::InsertRepository { document } => document,
        _ => panic!("expected an insert"),
    };
    assert_eq!(document.repo_name.chars().count(), 16);
    assert!(document.repo_name.chars().all(is_lower_hex));
    assert_eq!(document.repo_template, "rust-state-machine");
    assert_eq!(document.tester_url, TESTER);
    assert_eq!(
        document.expected_practice_frequency,
        ExpectedPracticeFrequency::OnceAWeek
    );
    assert!(document.is_reminder_enabled);
    assert_eq!(document.relationships.len(), 2);
    let user_edge = &document.relationships[0];
    assert_eq!(user_edge.role, "user");
    assert!(user_edge.relationship.id.same_ref(&Oid::parse(USER_HEX).unwrap()));
    assert_eq!(user_edge.relationship.doc_type, DocumentType::User);
    let course_edge = &document.relationships[1];
    assert_eq!(course_edge.role, "course");
    assert!(course_edge.relationship.id.same_ref(&Oid::parse(COURSE_HEX).unwrap()));
    assert_eq!(course_edge.relationship.doc_type, DocumentType::Course);

    let stored_id = Oid::parse(DOC_HEX).unwrap();
    let (state, action) = insert_repository_result(state, Ok(Some(stored_id)));
    match &action {
        RepoCreationAction::LinkRepositoryToUser { user_id, repository_id } => {
            assert!(user_id.same_ref(&Oid::parse(USER_HEX).unwrap()));
            assert!(repository_id.same_ref(&Oid::parse(DOC_HEX).unwrap()));
        }
        _ => panic!("expected a user link"),
    }

    let (state, action) = link_user_result(state, Ok(()));
    match state {
        RepoCreationState::UserLinked { repo_name } => {
            assert_eq!(repo_name, document.repo_name);
        }
        _ => panic!("expected UserLinked"),
    }
    assert!(matches!(action, RepoCreationAction::Stop));
}

#[test]
fn user_link_failure_is_a_database_error() {
    let (state, _) = begin_repo_creation(request());
    let (state, _) = resolve_course(state, Ok(Some(course())));
    let (state, _) = provision_git_result(state, Ok(()));
    let (state, _) = insert_repository_result(state, Ok(Some(Oid::parse(DOC_HEX).unwrap())));
    let (state, action) = link_user_result(state, Err("write concern failed".to_string()));
    match state {
        RepoCreationState::Aborted { error: RepoCreationError::DatabaseError(m) } => {
            assert_eq!(m, "write concern failed");
        }
        _ => panic!("expected a DatabaseError abort"),
    }
    assert!(matches!(action, RepoCreationAction::Stop));
}

#[test]
fn adding_a_repository_to_a_user_is_add_if_absent() {
    let user = User {
        name: "learner".to_string(),
        repositories: vec![],
        relationships: vec![],
    };
    let updated = add_repository_to_user(user, Oid::parse(DOC_HEX).unwrap());
    assert_eq!(updated.repositories.len(), 1);
    assert!(updated.repositories[0].id.same_ref(&Oid::parse(DOC_HEX).unwrap()));
    assert_eq!(updated.repositories[0].doc_type, DocumentType::Repository);

    let again = add_repository_to_user(updated, Oid::parse(DOC_HEX).unwrap());
    assert_eq!(again.repositories.len(), 1);
}

#[test]
fn git_acceptance_is_exactly_a_2xx_status() {
    assert!(git_response_ok(200));
    assert!(git_response_ok(204));
    assert!(git_response_ok(299));
    assert!(!git_response_ok(199));
    assert!(!git_response_ok(301));
    assert!(!git_response_ok(404));
    assert!(!git_response_ok(500));
}
