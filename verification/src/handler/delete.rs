//! Deleting one post.

use crate::database::statement::Statement;
use crate::error::{AppError, AppErrorView};
use crate::status::NO_CONTENT;
use vstd::prelude::*;

verus! {

/// Takes the identifier of a request to delete a post, and names the
/// deletion of that identifier.
pub fn delete_by_id(id: i32) -> (statement: Statement)
    ensures
        statement == (Statement::DeletePost { id }),
{
    Statement::DeletePost { id }
}

/// Takes the number of rows that the deletion removed.
///
/// With at least one row gone the answer is the status for an empty body;
/// with none the post is not found; a failure of the driver becomes a
/// database error.
pub fn deleted(rows_affected: Result<u64, sqlx::Error>) -> (answer: Result<u16, AppError>)
    ensures
        match rows_affected {
            Ok(count) => if count == 0 {
                answer matches Err(error) && error@ == AppErrorView::NotFound(
                    "Blog post not found"@,
                )
            } else {
                answer == Ok::<u16, AppError>(NO_CONTENT)
            },
            Err(cause) => answer == Err::<u16, AppError>(AppError::DatabaseError(cause)),
        },
{
    match rows_affected {
        Ok(count) => {
            if count == 0 {
                Err(AppError::NotFound("Blog post not found".to_owned()))
            } else {
                Ok(NO_CONTENT)
            }
        },
        Err(cause) => Err(AppError::from(cause)),
    }
}

} // verus!
