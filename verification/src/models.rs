//! The persisted entities: projects, conversations and messages, together
//! with the caller-supplied inputs that create them.
//!
//! All identifiers are generated client side before insertion; timestamps are
//! RFC 3339 text. The fields are plain values, so the store can speak about
//! whole rows in its contracts.

use vstd::prelude::*;

verus! {

/// A project row: the root entity of the store.
#[derive(Debug, Clone, PartialEq)]
pub struct Project {
    pub id: String,
    pub name: String,
    pub description: String,
    pub industry: Option<String>,
    pub target_audience: Option<String>,
    pub status: String,
    pub created_at: String,
    pub updated_at: String,
}

/// What a caller supplies to create a project; id, status and timestamps are
/// filled in by the store.
#[derive(Debug, Clone, PartialEq)]
pub struct CreateProjectInput {
    pub name: String,
    pub description: String,
    pub industry: Option<String>,
    pub target_audience: Option<String>,
}

/// A conversation row, owned by a project. The project reference is not
/// validated against the projects table.
#[derive(Debug, Clone, PartialEq)]
pub struct Conversation {
    pub id: String,
    pub project_id: String,
    pub phase: String,
    pub created_at: String,
}

/// A message row, owned by a conversation; append-only.
#[derive(Debug, Clone, PartialEq)]
pub struct Message {
    pub id: String,
    pub conversation_id: String,
    pub role: String,
    pub content: String,
    pub metadata: Option<String>,
    pub created_at: String,
}

/// What a caller supplies to append a message; id and timestamp are filled in
/// by the store.
#[derive(Debug, Clone, PartialEq)]
pub struct CreateMessageInput {
    pub conversation_id: String,
    pub role: String,
    pub content: String,
    pub metadata: Option<String>,
}

} // verus!
