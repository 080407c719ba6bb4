//! Listing every post.

use crate::database::statement::Statement;
use crate::error::AppError;
use crate::model::blog::BlogPost;
use crate::status::OK;
use vstd::prelude::*;

verus! {

/// Names the statement of a request to list the posts: every row, with no
/// order asked for.
pub fn find_all() -> (statement: Statement)
    ensures
        statement == Statement::SelectPosts,
{
    Statement::SelectPosts
}

/// Takes what the database answered to the listing.
///
/// The rows are sent back as they came, all of them and in their order, be
/// there none or many; a failure of the driver becomes a database error.
pub fn listed(rows: Result<Vec<BlogPost>, sqlx::Error>) -> (answer: Result<(u16, Vec<BlogPost>), AppError>)
    ensures
        match rows {
            Ok(posts) => answer == Ok::<(u16, Vec<BlogPost>), AppError>((OK, posts)),
            Err(cause) => answer == Err::<(u16, Vec<BlogPost>), AppError>(
                AppError::DatabaseError(cause),
            ),
        },
{
    match rows {
        Ok(posts) => Ok((OK, posts)),
        Err(cause) => Err(AppError::from(cause)),
    }
}

} // verus!
