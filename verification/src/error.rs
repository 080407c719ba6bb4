//! The error taxonomy of the service and its mapping to HTTP answers.

use crate::json::{encode_string, json_string, lemma_plain_text_is_quoted};
use crate::status::{BAD_REQUEST, INTERNAL_SERVER_ERROR, NOT_FOUND};
use vstd::prelude::*;

verus! {

/// `sqlx::Error`, the failure that the database driver reports. The library
/// never looks inside one: it carries the value from the driver to the log.
#[verifier::external_type_specification]
#[verifier::external_body]
pub struct ExDriverError(sqlx::Error);

/// Words the failure that the driver reported.
///
/// Trusted: the body formats the `sqlx::Error` with its `Display`. Nothing
/// is claimed of the text.
#[verifier::external_body]
fn cause_text(cause: &sqlx::Error) -> (text: String) {
    cause.to_string()
}

/// What can go wrong while a request is handled.
#[derive(Debug)]
pub enum AppError {
    /// The database driver failed.
    DatabaseError(sqlx::Error),
    /// The requested post, or any match, does not exist.
    NotFound(String),
    /// The payload was refused.
    BadRequest(String),
    /// Anything else.
    InternalServerError,
}

/// The mathematical content of an [`AppError`].
pub enum AppErrorView {
    DatabaseError(sqlx::Error),
    NotFound(Seq<char>),
    BadRequest(Seq<char>),
    InternalServerError,
}

impl View for AppError {
    type V = AppErrorView;

    open spec fn view(&self) -> AppErrorView {
        match self {
            AppError::DatabaseError(cause) => AppErrorView::DatabaseError(*cause),
            AppError::NotFound(message) => AppErrorView::NotFound(message@),
            AppError::BadRequest(message) => AppErrorView::BadRequest(message@),
            AppError::InternalServerError => AppErrorView::InternalServerError,
        }
    }
}

impl AppErrorView {
    /// The status code that answers this error.
    pub open spec fn status_code(self) -> int {
        match self {
            AppErrorView::DatabaseError(_) => 500,
            AppErrorView::NotFound(_) => 404,
            AppErrorView::BadRequest(_) => 400,
            AppErrorView::InternalServerError => 500,
        }
    }

    /// The message shown to the client. A database failure and an
    /// unclassified one show a fixed sentence, never their cause.
    pub open spec fn message(self) -> Seq<char> {
        match self {
            AppErrorView::DatabaseError(_) => "A database error occurred."@,
            AppErrorView::NotFound(message) => message,
            AppErrorView::BadRequest(message) => message,
            AppErrorView::InternalServerError => "An internal server error occurred."@,
        }
    }
}

/// The JSON document that carries an error to the client: an object whose
/// only member, `error`, is the message as an already encoded JSON string.
pub open spec fn error_document_text(encoded_message: Seq<char>) -> Seq<char> {
    "{\"error\":"@ + encoded_message + "}"@
}

/// Frames an encoded message as the error document.
pub fn error_document(encoded_message: &str) -> (document: String)
    ensures
        document@ == error_document_text(encoded_message@),
{
    let mut document = "{\"error\":".to_owned();
    document.append(encoded_message);
    document.append("}");
    document
}

/// The log line of a database error: the kind, then the cause as the driver
/// words it.
pub fn database_error_line(cause: &str) -> (line: String)
    ensures
        line@ == "Database error: "@ + cause@,
{
    let mut line = "Database error: ".to_owned();
    line.append(cause);
    line
}

impl AppError {
    /// The status code that answers this error.
    pub fn status_code(&self) -> (code: u16)
        ensures
            code == self@.status_code(),
    {
        match self {
            AppError::DatabaseError(_) => INTERNAL_SERVER_ERROR,
            AppError::NotFound(_) => NOT_FOUND,
            AppError::BadRequest(_) => BAD_REQUEST,
            AppError::InternalServerError => INTERNAL_SERVER_ERROR,
        }
    }

    /// The message shown to the client.
    pub fn message(&self) -> (text: &str)
        ensures
            text@ == self@.message(),
    {
        match self {
            AppError::DatabaseError(_) => "A database error occurred.",
            AppError::NotFound(message) => message.as_str(),
            AppError::BadRequest(message) => message.as_str(),
            AppError::InternalServerError => "An internal server error occurred.",
        }
    }

    /// The line that the server writes to its log for this error. Unlike
    /// the message to the client it names the kind of the error. For a
    /// database error it is `database_error_line` of the cause as the driver
    /// words it; that wording depends on the machine, so the contract states
    /// only how the line begins.
    pub fn describe(&self) -> (line: String)
        ensures
            match self@ {
                AppErrorView::DatabaseError(_) => "Database error: "@.is_prefix_of(line@),
                AppErrorView::NotFound(message) => line@ == "Not Found: "@ + message,
                AppErrorView::BadRequest(message) => line@ == "Bad Request: "@ + message,
                AppErrorView::InternalServerError => line@ == "Internal Server Error"@,
            },
    {
        match self {
            AppError::DatabaseError(cause) => {
                let cause = cause_text(cause);
                database_error_line(cause.as_str())
            },
            AppError::NotFound(message) => {
                let mut line = "Not Found: ".to_owned();
                line.append(message.as_str());
                line
            },
            AppError::BadRequest(message) => {
                let mut line = "Bad Request: ".to_owned();
                line.append(message.as_str());
                line
            },
            AppError::InternalServerError => "Internal Server Error".to_owned(),
        }
    }

    /// The body of the answer: the error document around the message.
    pub fn body(&self) -> (document: String)
        ensures
            document@ == error_document_text(json_string(self@.message())),
    {
        let encoded = encode_string(self.message());
        error_document(encoded.as_str())
    }

    /// The answer to the client: status code and body.
    pub fn into_response(self) -> (response: (u16, String))
        ensures
            response.0 == self@.status_code(),
            response.1@ == error_document_text(json_string(self@.message())),
    {
        (self.status_code(), self.body())
    }
}

/// The bodies that the service answers with its fixed messages, to the
/// letter: for a database error, for an unclassified error, for a post that
/// is not found and for a search without a match.
pub proof fn lemma_fixed_bodies(error: AppErrorView)
    ensures
        error is DatabaseError ==> error_document_text(json_string(error.message()))
            == "{\"error\":\"A database error occurred.\"}"@,
        error is InternalServerError ==> error_document_text(json_string(error.message()))
            == "{\"error\":\"An internal server error occurred.\"}"@,
        error == AppErrorView::NotFound("Blog post not found"@) ==> error_document_text(
            json_string(error.message()),
        ) == "{\"error\":\"Blog post not found\"}"@,
        error == AppErrorView::NotFound("No blog posts found"@) ==> error_document_text(
            json_string(error.message()),
        ) == "{\"error\":\"No blog posts found\"}"@,
{
    reveal_strlit("{\"error\":");
    reveal_strlit("}");
    assert(error_document_text(json_string("A database error occurred."@))
        =~= "{\"error\":\"A database error occurred.\"}"@) by {
        reveal_strlit("A database error occurred.");
        reveal_strlit("{\"error\":\"A database error occurred.\"}");
        lemma_plain_text_is_quoted("A database error occurred."@);
    }
    assert(error_document_text(json_string("An internal server error occurred."@))
        =~= "{\"error\":\"An internal server error occurred.\"}"@) by {
        reveal_strlit("An internal server error occurred.");
        reveal_strlit("{\"error\":\"An internal server error occurred.\"}");
        lemma_plain_text_is_quoted("An internal server error occurred."@);
    }
    assert(error_document_text(json_string("Blog post not found"@))
        =~= "{\"error\":\"Blog post not found\"}"@) by {
        reveal_strlit("Blog post not found");
        reveal_strlit("{\"error\":\"Blog post not found\"}");
        lemma_plain_text_is_quoted("Blog post not found"@);
    }
    assert(error_document_text(json_string("No blog posts found"@))
        =~= "{\"error\":\"No blog posts found\"}"@) by {
        reveal_strlit("No blog posts found");
        reveal_strlit("{\"error\":\"No blog posts found\"}");
        lemma_plain_text_is_quoted("No blog posts found"@);
    }
}

impl From<sqlx::Error> for AppError {
    /// A failure of the driver is a database error, whatever its kind.
    fn from(cause: sqlx::Error) -> (error: AppError) {
        AppError::DatabaseError(cause)
    }
}

impl vstd::std_specs::convert::FromSpecImpl<sqlx::Error> for AppError {
    open spec fn obeys_from_spec() -> bool {
        true
    }

    open spec fn from_spec(cause: sqlx::Error) -> AppError {
        AppError::DatabaseError(cause)
    }
}

} // verus!
