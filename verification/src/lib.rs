//! Core logic of a backend service that provisions per-student exercise
//! repositories from course templates and records test-submission events.
//!
//! The service talks to two external collaborators: a git-hosting endpoint
//! that materializes repositories from templates, and a document store with
//! four collections (repositories, users, courses, submissions). All I/O is
//! performed by an unverified driver; this crate holds the data model, the
//! identifier generators, and the two creation workflows as explicit state
//! machines whose every decision is verified. The driver performs the action
//! each transition requests and feeds the outcome back into the next
//! transition.

pub mod constants;
pub mod errors;
pub mod gateway;
pub mod ids;
pub mod models;
pub mod oid;
pub mod repo_flow;
pub mod responses;
pub mod submission_flow;
pub mod types;
