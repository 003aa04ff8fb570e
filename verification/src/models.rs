//! The four stored document kinds and the typed edges between them.
//!
//! Documents reference each other only by opaque id plus a type tag, so no
//! document embeds another and there are no ownership cycles.

use vstd::prelude::*;

use crate::oid::Oid;
use crate::types::{DocumentType, ExpectedPracticeFrequency};

verus! {

/// A typed, directed edge from one document to another.
pub struct Relationship {
    pub id: Oid,
    pub doc_type: DocumentType,
}

/// One named entry of a repository's relationship map: the relation role
/// (`"user"`, `"course"`) and the edge it carries.
pub struct RelationshipEntry {
    pub role: String,
    pub relationship: Relationship,
}

/// A repository document: the provisioned repository's name, the template it
/// was created from, and its edges to the owning user and source course.
pub struct Repository {
    pub repo_name: String,
    pub repo_template: String,
    pub tester_url: String,
    pub relationships: Vec<RelationshipEntry>,
    pub expected_practice_frequency: ExpectedPracticeFrequency,
    pub is_reminder_enabled: bool,
}

/// A user document, with the repositories the user owns.
pub struct User {
    pub name: String,
    pub repositories: Vec<Relationship>,
    pub relationships: Vec<Relationship>,
}

/// A course document. Read-only from this core's perspective.
pub struct Course {
    pub id: Oid,
    pub slug: String,
    pub name: String,
    pub tester_url: String,
    pub relationships: Vec<Relationship>,
}

/// A submission document. Immutable once written; `created_at` is a
/// timestamp in milliseconds since the Unix epoch, set at insert time.
pub struct Submission {
    pub repo_name: String,
    pub commit_sha: String,
    pub logstream_id: String,
    pub logstream_url: String,
    pub relationships: Vec<Relationship>,
    pub created_at: i64,
}

/// The edge stored under a role in a relationship map: first entry with that
/// role, if any.
pub open spec fn role_lookup(entries: Seq<RelationshipEntry>, role: Seq<char>) -> Option<
    Relationship,
>
    decreases entries.len(),
{
    if entries.len() == 0 {
        None
    } else if entries[0].role@ == role {
        Some(entries[0].relationship)
    } else {
        role_lookup(entries.drop_first(), role)
    }
}

/// A relationship map is well formed when no role repeats.
pub open spec fn roles_unique(entries: Seq<RelationshipEntry>) -> bool {
    forall|i: int, j: int|
        0 <= i < j < entries.len() ==> (#[trigger] entries[i].role@) != (#[trigger] entries[j].role@)
}

/// The repositories list carries an edge to the given repository document.
pub open spec fn has_repository_edge(edges: Seq<Relationship>, repository_id: Seq<char>) -> bool {
    exists|i: int|
        0 <= i < edges.len() && (#[trigger] edges[i]).id@ == repository_id && edges[i].doc_type
            == DocumentType::Repository
}

/// Add an edge to a newly created repository to a user's repository set,
/// add-if-absent: present edges are never duplicated, everything else about
/// the user is unchanged. This mirrors the store's atomic add-to-set update
/// that the driver issues.
pub fn add_repository_to_user(user: User, repository_id: Oid) -> (updated: User)
    requires
        repository_id.wf(),
        forall|i: int| 0 <= i < user.repositories@.len() ==> (#[trigger] user.repositories@[i]).id.wf(),
    ensures
        updated.name == user.name,
        updated.relationships == user.relationships,
        has_repository_edge(updated.repositories@, repository_id@),
        has_repository_edge(user.repositories@, repository_id@) ==> updated.repositories
            == user.repositories,
        !has_repository_edge(user.repositories@, repository_id@) ==> updated.repositories@
            == user.repositories@.push(
            Relationship { id: repository_id, doc_type: DocumentType::Repository },
        ),
{
    let mut updated = user;
    let len = updated.repositories.len();
    let mut i: usize = 0;
    while i < len
        invariant
            updated == user,
            repository_id.wf(),
            len == user.repositories@.len(),
            0 <= i <= len,
            forall|j: int|
                0 <= j < user.repositories@.len() ==> (#[trigger] user.repositories@[j]).id.wf(),
            forall|j: int|
                0 <= j < i ==> !((#[trigger] user.repositories@[j]).id@ == repository_id@
                    && user.repositories@[j].doc_type == DocumentType::Repository),
        decreases len - i,
    {
        let edge = &updated.repositories[i];
        if edge.doc_type == DocumentType::Repository && edge.id.same_ref(&repository_id) {
            proof {
                assert(0 <= i < user.repositories@.len() && user.repositories@[i as int].id@
                    == repository_id@ && user.repositories@[i as int].doc_type
                    == DocumentType::Repository);
            }
            return updated;
        }
        i += 1;
    }
    updated.repositories.push(
        Relationship { id: repository_id, doc_type: DocumentType::Repository },
    );
    proof {
        let edges = updated.repositories@;
        assert(edges[user.repositories@.len() as int].id@ == repository_id@);
        assert(!has_repository_edge(user.repositories@, repository_id@));
    }
    updated
}

} // verus!
