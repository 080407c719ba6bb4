//! The blog post, the only entity of the service.

use vstd::prelude::*;

verus! {

/// A blog post as the database holds it.
///
/// The database assigns `id` and both timestamps; the service never makes up
/// a post, it only passes on what the database returned.
#[derive(Debug, Clone, PartialEq, Eq)]
pub struct BlogPost {
    /// Identifier, assigned by the database on insert and never changed.
    pub id: i32,
    /// Title of the post.
    pub title: String,
    /// Text of the post.
    pub content: String,
    /// Category that the post belongs to.
    pub category: String,
    /// Tags of the post, in the order given by the author.
    pub tags: Vec<String>,
    /// When the post was inserted, in microseconds since the Unix epoch (UTC).
    pub created_at: i64,
    /// When the post was last written, in microseconds since the Unix epoch (UTC).
    pub updated_at: i64,
}

} // verus!
