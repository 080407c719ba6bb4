//! Searching the posts for a term.

use crate::database::pattern::{like_literal, like_literal_text};
use crate::database::statement::Statement;
use crate::error::{AppError, AppErrorView};
use crate::model::blog::BlogPost;
use crate::status::OK;
use vstd::prelude::*;

verus! {

/// The query parameters of a search.
#[derive(Debug, PartialEq, Eq)]
pub struct SearchQuery {
    /// The term to look for in title, content and tags.
    pub term: String,
}

/// Takes the query of a search request, and names the search for its term.
///
/// The term is looked for as it is: the statement binds the literal pattern
/// of the term, so that a percent sign, an underscore or a backslash in the
/// term finds only that character.
pub fn search_posts(query: SearchQuery) -> (statement: Statement)
    ensures
        statement matches Statement::SearchPosts { pattern } && pattern@ == like_literal_text(
            query.term@,
        ),
{
    Statement::SearchPosts { pattern: like_literal(query.term.as_str()) }
}

/// Takes what the database answered to the search.
///
/// The matching rows are sent back as they came, all of them and in their
/// order; no match at all is answered as not found; a failure of the driver
/// becomes a database error.
pub fn searched(rows: Result<Vec<BlogPost>, sqlx::Error>) -> (answer: Result<(u16, Vec<BlogPost>), AppError>)
    ensures
        match rows {
            Ok(posts) => if posts@.len() == 0 {
                answer matches Err(error) && error@ == AppErrorView::NotFound(
                    "No blog posts found"@,
                )
            } else {
                answer == Ok::<(u16, Vec<BlogPost>), AppError>((OK, posts))
            },
            Err(cause) => answer == Err::<(u16, Vec<BlogPost>), AppError>(
                AppError::DatabaseError(cause),
            ),
        },
{
    match rows {
        Ok(posts) => {
            if posts.len() == 0 {
                Err(AppError::NotFound("No blog posts found".to_owned()))
            } else {
                Ok((OK, posts))
            }
        },
        Err(cause) => Err(AppError::from(cause)),
    }
}

} // verus!
