//! Overwriting one post.

use crate::database::statement::Statement;
use crate::error::{AppError, AppErrorView};
use crate::handler::create::BlogPostBody;
use crate::model::blog::BlogPost;
use crate::status::OK;
use crate::validation::{report, report_text};
use vstd::prelude::*;

verus! {

/// Takes the identifier and the payload of a request to overwrite a post.
///
/// A valid payload becomes the update statement that binds its four fields
/// as they are, and the identifier. An invalid one is refused as a bad
/// request whose message is the report on its violations; no statement is
/// named, so nothing reaches the database.
pub fn update_by_id(id: i32, payload: BlogPostBody) -> (step: Result<Statement, AppError>)
    ensures
        payload.is_valid() ==> step == Ok::<Statement, AppError>(
            (Statement::UpdatePost {
                id,
                title: payload.title,
                content: payload.content,
                category: payload.category,
                tags: payload.tags,
            }),
        ),
        !payload.is_valid() ==> (step matches Err(error) && error@ == AppErrorView::BadRequest(
            report_text(payload.violations()),
        )),
{
    match payload.validate() {
        Ok(()) => Ok(
            Statement::UpdatePost {
                id,
                title: payload.title,
                content: payload.content,
                category: payload.category,
                tags: payload.tags,
            },
        ),
        Err(violations) => Err(AppError::BadRequest(report(&violations))),
    }
}

/// Takes what the database answered to the update.
///
/// The new row is sent back as it is; no row means that no post has the
/// identifier; a failure of the driver becomes a database error.
pub fn updated(row: Result<Option<BlogPost>, sqlx::Error>) -> (answer: Result<(u16, BlogPost), AppError>)
    ensures
        match row {
            Ok(Some(post)) => answer == Ok::<(u16, BlogPost), AppError>((OK, post)),
            Ok(None) => answer matches Err(error) && error@ == AppErrorView::NotFound(
                "Blog post not found"@,
            ),
            Err(cause) => answer == Err::<(u16, BlogPost), AppError>(AppError::DatabaseError(cause)),
        },
{
    match row {
        Ok(Some(post)) => Ok((OK, post)),
        Ok(None) => Err(AppError::NotFound("Blog post not found".to_owned())),
        Err(cause) => Err(AppError::from(cause)),
    }
}

} // verus!
