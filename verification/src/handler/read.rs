//! Reading one post.

use crate::database::statement::Statement;
use crate::error::{AppError, AppErrorView};
use crate::model::blog::BlogPost;
use crate::status::OK;
use vstd::prelude::*;

verus! {

/// Takes the identifier of a request to read a post, and names the lookup
/// of that identifier.
pub fn find_by_id(id: i32) -> (statement: Statement)
    ensures
        statement == (Statement::SelectPost { id }),
{
    Statement::SelectPost { id }
}

/// Takes what the database answered to the lookup.
///
/// A row is sent back as it is; no row means that the post is not found; a
/// failure of the driver becomes a database error.
pub fn found(row: Result<Option<BlogPost>, sqlx::Error>) -> (answer: Result<(u16, BlogPost), AppError>)
    ensures
        match row {
            Ok(Some(post)) => answer == Ok::<(u16, BlogPost), AppError>((OK, post)),
            Ok(None) => answer matches Err(error) && error@ == AppErrorView::NotFound(
                "Blog post not found"@,
            ),
            Err(cause) => answer == Err::<(u16, BlogPost), AppError>(AppError::DatabaseError(cause)),
        },
{
    match row {
        Ok(Some(post)) => Ok((OK, post)),
        Ok(None) => Err(AppError::NotFound("Blog post not found".to_owned())),
        Err(cause) => Err(AppError::from(cause)),
    }
}

} // verus!
