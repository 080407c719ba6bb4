//! Creating a post.

use crate::database::statement::Statement;
use crate::error::{error_document_text, AppError, AppErrorView};
use crate::json::{json_string, lemma_plain_text_is_quoted};
use crate::model::blog::BlogPost;
use crate::status::CREATED;
use crate::validation::{
    lemma_report_holds_each_message, list_length_accepted, occurs_in, report, report_text,
    text_length_accepted, Violation,
};
use vstd::prelude::*;

verus! {

/// The payload of a request that creates or overwrites a post.
#[derive(Debug, PartialEq, Eq)]
pub struct BlogPostBody {
    /// Title of the post; may not be empty.
    pub title: String,
    /// Text of the post; may not be empty.
    pub content: String,
    /// Category of the post; may not be empty.
    pub category: String,
    /// Tags of the post; there must be at least one.
    pub tags: Vec<String>,
}

impl BlogPostBody {
    /// Whether the payload meets every rule: title, content and category
    /// hold at least one character, and there is at least one tag.
    pub open spec fn is_valid(&self) -> bool {
        &&& self.title@.len() >= 1
        &&& self.content@.len() >= 1
        &&& self.category@.len() >= 1
        &&& self.tags@.len() >= 1
    }

    /// The rules that the payload breaks, in the order of its fields.
    pub open spec fn violations(&self) -> Seq<Violation> {
        let title: Seq<Violation> = if self.title@.len() >= 1 {
            seq![]
        } else {
            seq![Violation::EmptyTitle]
        };
        let content: Seq<Violation> = if self.content@.len() >= 1 {
            seq![]
        } else {
            seq![Violation::EmptyContent]
        };
        let category: Seq<Violation> = if self.category@.len() >= 1 {
            seq![]
        } else {
            seq![Violation::EmptyCategory]
        };
        let tags: Seq<Violation> = if self.tags@.len() >= 1 {
            seq![]
        } else {
            seq![Violation::NoTags]
        };
        title + content + category + tags
    }

    /// Checks the payload against the rules.
    ///
    /// Returns `Ok` exactly when the payload is valid, and otherwise every
    /// rule that it breaks, in the order of the fields.
    pub fn validate(&self) -> (outcome: Result<(), Vec<Violation>>)
        ensures
            self.is_valid() <==> outcome is Ok,
            outcome matches Err(found) ==> found@ == self.violations(),
    {
        let mut found: Vec<Violation> = Vec::new();
        if !text_length_accepted(&self.title, Some(1), None, None) {
            found.push(Violation::EmptyTitle);
        }
        if !text_length_accepted(&self.content, Some(1), None, None) {
            found.push(Violation::EmptyContent);
        }
        if !text_length_accepted(&self.category, Some(1), None, None) {
            found.push(Violation::EmptyCategory);
        }
        if !list_length_accepted(&self.tags, Some(1), None, None) {
            found.push(Violation::NoTags);
        }
        proof {
            assert(found@ =~= self.violations());
        }
        if found.len() == 0 {
            Ok(())
        } else {
            Err(found)
        }
    }
}

/// A payload breaks a rule exactly when the field of that rule is empty, and
/// it is valid exactly when it breaks none.
pub proof fn lemma_violations_follow_the_rules(payload: BlogPostBody)
    ensures
        payload.violations().contains(Violation::EmptyTitle) <==> payload.title@.len() == 0,
        payload.violations().contains(Violation::EmptyContent) <==> payload.content@.len() == 0,
        payload.violations().contains(Violation::EmptyCategory) <==> payload.category@.len() == 0,
        payload.violations().contains(Violation::NoTags) <==> payload.tags@.len() == 0,
        payload.is_valid() <==> payload.violations().len() == 0,
{
    let found = payload.violations();
    assert forall|violation: Violation| #[trigger] found.contains(violation) implies match violation {
        Violation::EmptyTitle => payload.title@.len() == 0,
        Violation::EmptyContent => payload.content@.len() == 0,
        Violation::EmptyCategory => payload.category@.len() == 0,
        Violation::NoTags => payload.tags@.len() == 0,
    } by {
        let at = choose|at: int| 0 <= at < found.len() && found[at] == violation;
    }
    if payload.title@.len() == 0 {
        assert(found[0] == Violation::EmptyTitle);
    }
    if payload.content@.len() == 0 {
        let at = if payload.title@.len() == 0 { 1int } else { 0int };
        assert(found[at] == Violation::EmptyContent);
    }
    if payload.category@.len() == 0 {
        let at = found.len() - 1 - (if payload.tags@.len() == 0 { 1int } else { 0int });
        assert(found[at] == Violation::EmptyCategory);
    }
    if payload.tags@.len() == 0 {
        assert(found[found.len() - 1] == Violation::NoTags);
    }
}

/// The message that refuses a payload holds the sentence of every rule that
/// the payload breaks.
pub proof fn lemma_refusal_names_each_broken_rule(payload: BlogPostBody, violation: Violation)
    requires
        payload.violations().contains(violation),
    ensures
        occurs_in(violation.message_text(), report_text(payload.violations())),
{
    let found = payload.violations();
    let at = choose|at: int| 0 <= at < found.len() && found[at] == violation;
    lemma_report_holds_each_message(found, at);
}

/// The body that refuses a payload which breaks one rule only, to the
/// letter.
pub proof fn lemma_body_of_a_single_violation(violation: Violation)
    ensures
        error_document_text(json_string(report_text(seq![violation]))) == match violation {
            Violation::EmptyTitle => "{\"error\":\"title: Title cannot be empty\"}"@,
            Violation::EmptyContent => "{\"error\":\"content: Content cannot be empty\"}"@,
            Violation::EmptyCategory => "{\"error\":\"category: Category cannot be empty\"}"@,
            Violation::NoTags => "{\"error\":\"tags: At least one tag is required\"}"@,
        },
{
    reveal_strlit("{\"error\":");
    reveal_strlit("}");
    reveal_strlit(": ");
    let line = report_text(seq![violation]);
    assert(line == violation.line_text());
    match violation {
        Violation::EmptyTitle => {
            reveal_strlit("title");
            reveal_strlit("Title cannot be empty");
            reveal_strlit("{\"error\":\"title: Title cannot be empty\"}");
            lemma_plain_text_is_quoted(line);
            assert(error_document_text(json_string(line))
                =~= "{\"error\":\"title: Title cannot be empty\"}"@);
        },
        Violation::EmptyContent => {
            reveal_strlit("content");
            reveal_strlit("Content cannot be empty");
            reveal_strlit("{\"error\":\"content: Content cannot be empty\"}");
            lemma_plain_text_is_quoted(line);
            assert(error_document_text(json_string(line))
                =~= "{\"error\":\"content: Content cannot be empty\"}"@);
        },
        Violation::EmptyCategory => {
            reveal_strlit("category");
            reveal_strlit("Category cannot be empty");
            reveal_strlit("{\"error\":\"category: Category cannot be empty\"}");
            lemma_plain_text_is_quoted(line);
            assert(error_document_text(json_string(line))
                =~= "{\"error\":\"category: Category cannot be empty\"}"@);
        },
        Violation::NoTags => {
            reveal_strlit("tags");
            reveal_strlit("At least one tag is required");
            reveal_strlit("{\"error\":\"tags: At least one tag is required\"}");
            lemma_plain_text_is_quoted(line);
            assert(error_document_text(json_string(line))
                =~= "{\"error\":\"tags: At least one tag is required\"}"@);
        },
    }
}

/// Takes the payload of a request to create a post.
///
/// A valid payload becomes the insert statement that binds its four fields
/// as they are. An invalid one is refused as a bad request whose message is
/// the report on its violations; no statement is named, so nothing reaches
/// the database.
pub fn create_post(payload: BlogPostBody) -> (step: Result<Statement, AppError>)
    ensures
        payload.is_valid() ==> step == Ok::<Statement, AppError>(
            (Statement::InsertPost {
                title: payload.title,
                content: payload.content,
                category: payload.category,
                tags: payload.tags,
            }),
        ),
        !payload.is_valid() ==> (step matches Err(error) && error@ == AppErrorView::BadRequest(
            report_text(payload.violations()),
        )),
{
    match payload.validate() {
        Ok(()) => Ok(
            Statement::InsertPost {
                title: payload.title,
                content: payload.content,
                category: payload.category,
                tags: payload.tags,
            },
        ),
        Err(violations) => Err(AppError::BadRequest(report(&violations))),
    }
}

/// Takes what the database answered to the insert.
///
/// The stored row is sent back as it is, with the status for a created
/// resource; a failure of the driver becomes a database error.
pub fn created(inserted: Result<BlogPost, sqlx::Error>) -> (answer: Result<(u16, BlogPost), AppError>)
    ensures
        match inserted {
            Ok(post) => answer == Ok::<(u16, BlogPost), AppError>((CREATED, post)),
            Err(cause) => answer == Err::<(u16, BlogPost), AppError>(AppError::DatabaseError(cause)),
        },
{
    match inserted {
        Ok(post) => Ok((CREATED, post)),
        Err(cause) => Err(AppError::from(cause)),
    }
}

} // verus!
