use blog_api::error::{database_error_line, error_document, AppError};

#[test]
fn a_database_error_answers_500_with_a_fixed_message() {
    let error = AppError::DatabaseError(sqlx::Error::RowNotFound);
    assert_eq!(error.status_code(), 500);
    assert_eq!(error.message(), "A database error occurred.");
    assert_eq!(error.body(), r#"{"error":"A database error occurred."}"#);
}

#[test]
fn not_found_answers_404_with_its_message() {
    let error = AppError::NotFound("Blog post not found".to_string());
    assert_eq!(error.status_code(), 404);
    assert_eq!(error.message(), "Blog post not found");
    assert_eq!(error.body(), r#"{"error":"Blog post not found"}"#);
}

#[test]
fn bad_request_answers_400_with_its_message() {
    let error = AppError::BadRequest("title: Title cannot be empty".to_string());
    assert_eq!(error.status_code(), 400);
    assert_eq!(error.message(), "title: Title cannot be empty");
    assert_eq!(error.body(), r#"{"error":"title: Title cannot be empty"}"#);
}

#[test]
fn an_internal_error_answers_500_with_a_fixed_message() {
    let error = AppError::InternalServerError;
    assert_eq!(error.status_code(), 500);
    assert_eq!(error.message(), "An internal server error occurred.");
    assert_eq!(error.body(), r#"{"error":"An internal server error occurred."}"#);
}

#[test]
fn the_response_is_status_and_body() {
    let response = AppError::NotFound("No blog posts found".to_string()).into_response();
    assert_eq!(response, (404, r#"{"error":"No blog posts found"}"#.to_string()));
    let response = AppError::DatabaseError(sqlx::Error::PoolTimedOut).into_response();
    assert_eq!(response, (500, r#"{"error":"A database error occurred."}"#.to_string()));
}

#[test]
fn the_message_is_escaped_in_the_body() {
    let error = AppError::BadRequest("say \"hi\"\n\ttab \\ done \u{1} é".to_string());
    assert_eq!(error.body(), "{\"error\":\"say \\\"hi\\\"\\n\\ttab \\\\ done \\u0001 é\"}");
    let parsed: serde_json::Value = serde_json::from_str(&error.body()).unwrap();
    assert_eq!(parsed["error"].as_str(), Some("say \"hi\"\n\ttab \\ done \u{1} é"));
}

#[test]
fn an_empty_message_is_an_empty_json_string() {
    assert_eq!(AppError::NotFound(String::new()).body(), r#"{"error":""}"#);
}

#[test]
fn the_error_document_frames_what_it_is_given() {
    assert_eq!(error_document("\"x\""), r#"{"error":"x"}"#);
    assert_eq!(error_document(""), r#"{"error":}"#);
}

#[test]
fn a_driver_failure_becomes_a_database_error() {
    let error = AppError::from(sqlx::Error::PoolClosed);
    assert!(matches!(error, AppError::DatabaseError(sqlx::Error::PoolClosed)));
}

#[test]
fn the_log_line_names_the_kind() {
    assert_eq!(
        AppError::NotFound("User not found".to_string()).describe(),
        "Not Found: User not found"
    );
    assert_eq!(
        AppError::BadRequest("tags: At least one tag is required".to_string()).describe(),
        "Bad Request: tags: At least one tag is required"
    );
    assert_eq!(AppError::InternalServerError.describe(), "Internal Server Error");
}

#[test]
fn the_log_line_of_a_database_error_ends_with_the_cause() {
    let line = AppError::DatabaseError(sqlx::Error::RowNotFound).describe();
    assert_eq!(
        line,
        format!("Database error: {}", sqlx::Error::RowNotFound)
    );
    assert!(line.len() > "Database error: ".len());
}

#[test]
fn the_line_of_a_database_error_holds_the_cause() {
    assert_eq!(
        database_error_line("pool timed out while waiting for an open connection"),
        "Database error: pool timed out while waiting for an open connection"
    );
    assert_eq!(database_error_line(""), "Database error: ");
    assert_eq!(
        AppError::DatabaseError(sqlx::Error::PoolTimedOut).describe(),
        database_error_line(&sqlx::Error::PoolTimedOut.to_string())
    );
}

#[test]
fn every_control_character_is_escaped_in_the_body() {
    let error = AppError::NotFound("\u{0}\u{8}\u{b}\u{c}\r\u{1f}\u{7f}/".to_string());
    assert_eq!(
        error.body(),
        "{\"error\":\"\\u0000\\b\\u000b\\f\\r\\u001f\u{7f}/\"}"
    );
}
