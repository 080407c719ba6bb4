//! The SQL statements of the service and the values bound to them.
//!
//! Every statement is a fixed text with numbered placeholders. Values reach
//! the database only as bound parameters, never as part of the text.

use vstd::prelude::*;

verus! {

/// A value bound to one placeholder of a statement.
#[derive(Debug, PartialEq, Eq)]
pub enum Parameter {
    /// A text value.
    Text(String),
    /// An array of text values.
    TextArray(Vec<String>),
    /// A 32-bit integer.
    Integer(i32),
}

/// One statement against the `blog_posts` table, with the values it binds.
#[derive(Debug, PartialEq, Eq)]
pub enum Statement {
    /// Inserts a post and returns the stored row.
    InsertPost { title: String, content: String, category: String, tags: Vec<String> },
    /// Returns every row, in no particular order.
    SelectPosts,
    /// Returns the row with the given identifier, if there is one.
    SelectPost { id: i32 },
    /// Overwrites the mutable columns of one row and returns the new row, if
    /// the identifier exists.
    UpdatePost { id: i32, title: String, content: String, category: String, tags: Vec<String> },
    /// Deletes the row with the given identifier.
    DeletePost { id: i32 },
    /// Returns every row whose title, content or comma-joined tags match
    /// the pattern, ignoring case. The pattern is a LIKE pattern: to find a
    /// term as it is, it must be the literal pattern of that term (see
    /// `like_literal`), in which no character of the term acts as a wildcard.
    SearchPosts { pattern: String },
    /// Creates the full-text index over title, content and tags, unless it exists.
    CreateSearchIndex,
}

impl Statement {
    /// The text of the statement.
    pub open spec fn sql_text(&self) -> Seq<char> {
        match self {
            Statement::InsertPost { .. } =>
                "INSERT INTO blog_posts (title, content, category, tags) VALUES ($1, $2, $3, $4) RETURNING *"@,
            Statement::SelectPosts => "SELECT * FROM blog_posts"@,
            Statement::SelectPost { .. } => "SELECT * FROM blog_posts WHERE id = $1"@,
            Statement::UpdatePost { .. } =>
                "UPDATE blog_posts SET title = $1, content = $2, category = $3, tags = $4, updated_at = now() WHERE id = $5 RETURNING *"@,
            Statement::DeletePost { .. } => "DELETE FROM blog_posts WHERE id = $1"@,
            Statement::SearchPosts { .. } =>
                "SELECT * FROM blog_posts WHERE title ILIKE '%' || $1 || '%' OR content ILIKE '%' || $1 || '%' OR array_to_string(tags, ',') ILIKE '%' || $1 || '%'"@,
            Statement::CreateSearchIndex =>
                "CREATE INDEX IF NOT EXISTS idx_fts ON blog_posts USING GIN (to_tsvector('english', title || ' ' || content || ' ' || tags))"@,
        }
    }

    /// The values bound to the placeholders, the first one to `$1`.
    pub open spec fn parameter_list(self) -> Seq<Parameter> {
        match self {
            Statement::InsertPost { title, content, category, tags } => seq![
                Parameter::Text(title),
                Parameter::Text(content),
                Parameter::Text(category),
                Parameter::TextArray(tags),
            ],
            Statement::SelectPosts => seq![],
            Statement::SelectPost { id } => seq![Parameter::Integer(id)],
            Statement::UpdatePost { id, title, content, category, tags } => seq![
                Parameter::Text(title),
                Parameter::Text(content),
                Parameter::Text(category),
                Parameter::TextArray(tags),
                Parameter::Integer(id),
            ],
            Statement::DeletePost { id } => seq![Parameter::Integer(id)],
            Statement::SearchPosts { pattern } => seq![Parameter::Text(pattern)],
            Statement::CreateSearchIndex => seq![],
        }
    }

    /// Whether two statements are of the same kind, whatever they bind.
    pub open spec fn same_kind(&self, other: &Statement) -> bool {
        match (self, other) {
            (Statement::InsertPost { .. }, Statement::InsertPost { .. }) => true,
            (Statement::SelectPosts, Statement::SelectPosts) => true,
            (Statement::SelectPost { .. }, Statement::SelectPost { .. }) => true,
            (Statement::UpdatePost { .. }, Statement::UpdatePost { .. }) => true,
            (Statement::DeletePost { .. }, Statement::DeletePost { .. }) => true,
            (Statement::SearchPosts { .. }, Statement::SearchPosts { .. }) => true,
            (Statement::CreateSearchIndex, Statement::CreateSearchIndex) => true,
            _ => false,
        }
    }

    /// The text of the statement, to prepare it with.
    pub fn sql(&self) -> (text: &'static str)
        ensures
            text@ == self.sql_text(),
    {
        match self {
            Statement::InsertPost { .. } =>
                "INSERT INTO blog_posts (title, content, category, tags) VALUES ($1, $2, $3, $4) RETURNING *",
            Statement::SelectPosts => "SELECT * FROM blog_posts",
            Statement::SelectPost { .. } => "SELECT * FROM blog_posts WHERE id = $1",
            Statement::UpdatePost { .. } =>
                "UPDATE blog_posts SET title = $1, content = $2, category = $3, tags = $4, updated_at = now() WHERE id = $5 RETURNING *",
            Statement::DeletePost { .. } => "DELETE FROM blog_posts WHERE id = $1",
            Statement::SearchPosts { .. } =>
                "SELECT * FROM blog_posts WHERE title ILIKE '%' || $1 || '%' OR content ILIKE '%' || $1 || '%' OR array_to_string(tags, ',') ILIKE '%' || $1 || '%'",
            Statement::CreateSearchIndex =>
                "CREATE INDEX IF NOT EXISTS idx_fts ON blog_posts USING GIN (to_tsvector('english', title || ' ' || content || ' ' || tags))",
        }
    }

    /// The values to bind, in the order of the placeholders.
    pub fn into_parameters(self) -> (parameters: Vec<Parameter>)
        ensures
            parameters@ == self.parameter_list(),
    {
        let mut parameters: Vec<Parameter> = Vec::new();
        match self {
            Statement::InsertPost { title, content, category, tags } => {
                parameters.push(Parameter::Text(title));
                parameters.push(Parameter::Text(content));
                parameters.push(Parameter::Text(category));
                parameters.push(Parameter::TextArray(tags));
            },
            Statement::SelectPosts => {},
            Statement::SelectPost { id } => {
                parameters.push(Parameter::Integer(id));
            },
            Statement::UpdatePost { id, title, content, category, tags } => {
                parameters.push(Parameter::Text(title));
                parameters.push(Parameter::Text(content));
                parameters.push(Parameter::Text(category));
                parameters.push(Parameter::TextArray(tags));
                parameters.push(Parameter::Integer(id));
            },
            Statement::DeletePost { id } => {
                parameters.push(Parameter::Integer(id));
            },
            Statement::SearchPosts { pattern } => {
                parameters.push(Parameter::Text(pattern));
            },
            Statement::CreateSearchIndex => {},
        }
        parameters
    }
}

/// No value ever becomes part of a statement's text: two statements of the
/// same kind have the same text, whatever they bind.
pub proof fn lemma_text_is_independent_of_values(first: Statement, second: Statement)
    requires
        first.same_kind(&second),
    ensures
        first.sql_text() == second.sql_text(),
{
}

} // verus!
