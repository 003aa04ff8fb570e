use repo_service::constants::create_repository_url;
use repo_service::errors::{DbError, RepoCreationError};
use repo_service::gateway::{course_from_fetch, course_reference, repository_from_fetch};
use repo_service::models::{Course, Repository};
use repo_service::oid::Oid;
use repo_service::responses::{
    db_error_response, repo_creation_error_response, repository_creation_success,
};
use repo_service::types::ExpectedPracticeFrequency;

const COURSE_HEX: &str = "507f1f77bcf86cd799439011";

fn course() -> Course {
    Course {
        id: Oid::parse(COURSE_HEX).unwrap(),
        slug: "rust-state-machine".to_string(),
        name: "Rust State Machine".to_string(),
        tester_url: "https://github.com/dotcodeschool/rust-state-machine-tester".to_string(),
        relationships: vec![],
    }
}

fn repository() -> Repository {
    Repository {
        repo_name: "4a5b6c7d8e9f0a1b".to_string(),
        repo_template: "rust-state-machine".to_string(),
        tester_url: "https://github.com/dotcodeschool/rust-state-machine-tester".to_string(),
        relationships: vec![],
        expected_practice_frequency: ExpectedPracticeFrequency::OnceAMonth,
        is_reminder_enabled: true,
    }
}

#[test]
fn object_references_accept_exactly_24_hex_digits() {
    assert!(Oid::parse(COURSE_HEX).is_some());
    assert!(Oid::parse("507F1F77BCF86CD799439011").is_some());
    assert!(Oid::parse("507f1f77bcf86cd79943901").is_none());
    assert!(Oid::parse("507f1f77bcf86cd7994390111").is_none());
    assert!(Oid::parse("507f1f77bcf86cd79943901g").is_none());
    assert!(Oid::parse("").is_none());
}

#[test]
fn object_references_compare_case_insensitively() {
    let lower = Oid::parse(COURSE_HEX).unwrap();
    let upper = Oid::parse("507F1F77BCF86CD799439011").unwrap();
    let other = Oid::parse("507f1f77bcf86cd799439012").unwrap();
    assert!(lower.same_ref(&upper));
    assert!(!lower.same_ref(&other));
    assert_eq!(lower.as_str(), COURSE_HEX);
}

#[test]
fn malformed_course_reference_is_rejected_before_any_round_trip() {
    match course_reference("not-an-id") {
        Err(DbError::InternalServerError(m)) => assert_eq!(m, "not-an-id"),
        _ => panic!("expected an InternalServerError"),
    }
    assert!(course_reference(COURSE_HEX).is_ok());
}

#[test]
fn course_fetch_outcomes_are_classified() {
    let id = Oid::parse(COURSE_HEX).unwrap();
    match course_from_fetch(&id, Ok(Some(course()))) {
        Ok(found) => assert_eq!(found.slug, "rust-state-machine"),
        _ => panic!("expected the course"),
    }
    match course_from_fetch(&id, Ok(None)) {
        Err(DbError::NotFound(m)) => assert_eq!(m, COURSE_HEX),
        _ => panic!("expected NotFound"),
    }
    match course_from_fetch(&id, Err("no primary".to_string())) {
        Err(DbError::DatabaseError(m)) => assert_eq!(m, "no primary"),
        _ => panic!("expected DatabaseError"),
    }
}

#[test]
fn repository_fetch_outcomes_are_classified() {
    match repository_from_fetch("4a5b6c7d8e9f0a1b", Ok(Some(repository()))) {
        Ok(found) => assert_eq!(found.repo_name, "4a5b6c7d8e9f0a1b"),
        _ => panic!("expected the repository"),
    }
    match repository_from_fetch("4a5b6c7d8e9f0a1b", Ok(None)) {
        Err(DbError::NotFound(m)) => assert_eq!(m, "4a5b6c7d8e9f0a1b"),
        _ => panic!("expected NotFound"),
    }
    match repository_from_fetch("4a5b6c7d8e9f0a1b", Err("cursor died".to_string())) {
        Err(DbError::DatabaseError(m)) => assert_eq!(m, "cursor died"),
        _ => panic!("expected DatabaseError"),
    }
}

#[test]
fn creation_errors_map_to_their_wire_responses() {
    let cases = [
        (
            RepoCreationError::GitServerError("x".to_string()),
            500,
            "Failed to communicate with git server",
        ),
        (
            RepoCreationError::DatabaseError("x".to_string()),
            500,
            "Failed to save repository to database",
        ),
        (RepoCreationError::InvalidObjectId("x".to_string()), 500, "Invalid object id"),
        (
            RepoCreationError::InsertionError("x".to_string()),
            500,
            "Failed to insert repository into database",
        ),
        (RepoCreationError::NotFound("x".to_string()), 404, "404 Not Found"),
        (
            RepoCreationError::InternalServerError("x".to_string()),
            500,
            "500 Internal Server Error",
        ),
    ];
    for (error, status, body) in cases {
        let (s, b) = repo_creation_error_response(&error);
        assert_eq!(s, status);
        assert_eq!(b, body);
    }
}

#[test]
fn store_errors_map_to_their_wire_responses() {
    let cases = [
        (
            DbError::DatabaseError("x".to_string()),
            500,
            "Failed to save submission to database",
        ),
        (DbError::InternalServerError("x".to_string()), 500, "500 Internal Server Error"),
        (DbError::NotFound("x".to_string()), 404, "404 Not Found"),
    ];
    for (error, status, body) in cases {
        let (s, b) = db_error_response(&error);
        assert_eq!(s, status);
        assert_eq!(b, body);
    }
}

#[test]
fn creation_success_payload_echoes_name_and_template() {
    let r = repository_creation_success("4a5b6c7d8e9f0a1b".to_string(), "rust-state-machine".to_string());
    assert_eq!(r.repo_name, "4a5b6c7d8e9f0a1b");
    assert_eq!(r.repo_template, "rust-state-machine");
}

#[test]
fn provisioning_endpoint_is_under_the_git_server() {
    assert_eq!(
        create_repository_url(),
        "https://git.dotcodeschool.com/api/v0/create_repository"
    );
}
