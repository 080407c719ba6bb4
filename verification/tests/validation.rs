use blog_api::handler::create::BlogPostBody;
use blog_api::validation::{report, Violation};

fn body(title: &str, content: &str, category: &str, tags: &[&str]) -> BlogPostBody {
    BlogPostBody {
        title: title.to_string(),
        content: content.to_string(),
        category: category.to_string(),
        tags: tags.iter().map(|tag| tag.to_string()).collect(),
    }
}

#[test]
fn a_complete_payload_is_valid() {
    let payload = body("My First Post", "Some content.", "Rust", &["rust", "async", "sqlx"]);
    assert_eq!(payload.validate(), Ok(()));
}

#[test]
fn an_empty_title_is_a_violation() {
    let payload = body("", "Some content.", "Rust", &["rust"]);
    assert_eq!(payload.validate(), Err(vec![Violation::EmptyTitle]));
}

#[test]
fn an_empty_content_is_a_violation() {
    let payload = body("Title", "", "Rust", &["rust"]);
    assert_eq!(payload.validate(), Err(vec![Violation::EmptyContent]));
}

#[test]
fn an_empty_category_is_a_violation() {
    let payload = body("Title", "Some content.", "", &["rust"]);
    assert_eq!(payload.validate(), Err(vec![Violation::EmptyCategory]));
}

#[test]
fn no_tag_is_a_violation() {
    let payload = body("Title", "Some content.", "Rust", &[]);
    assert_eq!(payload.validate(), Err(vec![Violation::NoTags]));
}

#[test]
fn violations_come_in_the_order_of_the_fields() {
    let payload = body("", "", "", &[]);
    assert_eq!(
        payload.validate(),
        Err(vec![
            Violation::EmptyTitle,
            Violation::EmptyContent,
            Violation::EmptyCategory,
            Violation::NoTags,
        ])
    );
    let payload = body("Title", "", "Rust", &[]);
    assert_eq!(payload.validate(), Err(vec![Violation::EmptyContent, Violation::NoTags]));
}

#[test]
fn one_character_is_enough() {
    assert_eq!(body(" ", "x", "y", &["z"]).validate(), Ok(()));
    assert_eq!(body("é", "内", "ß", &["ü"]).validate(), Ok(()));
}

#[test]
fn the_text_of_a_tag_is_not_checked() {
    assert_eq!(body("Title", "Some content.", "Rust", &[""]).validate(), Ok(()));
}

#[test]
fn each_violation_names_its_field_and_its_sentence() {
    assert_eq!(Violation::EmptyTitle.field(), "title");
    assert_eq!(Violation::EmptyTitle.message(), "Title cannot be empty");
    assert_eq!(Violation::EmptyContent.field(), "content");
    assert_eq!(Violation::EmptyContent.message(), "Content cannot be empty");
    assert_eq!(Violation::EmptyCategory.field(), "category");
    assert_eq!(Violation::EmptyCategory.message(), "Category cannot be empty");
    assert_eq!(Violation::NoTags.field(), "tags");
    assert_eq!(Violation::NoTags.message(), "At least one tag is required");
}

#[test]
fn a_report_has_one_line_for_each_violation() {
    assert_eq!(report(&vec![]), "");
    assert_eq!(report(&vec![Violation::NoTags]), "tags: At least one tag is required");
    assert_eq!(
        report(&vec![
            Violation::EmptyTitle,
            Violation::EmptyContent,
            Violation::EmptyCategory,
            Violation::NoTags,
        ]),
        "title: Title cannot be empty\ncontent: Content cannot be empty\ncategory: Category cannot be empty\ntags: At least one tag is required"
    );
}

#[test]
fn a_report_holds_the_sentence_of_each_violation() {
    let violations = vec![Violation::EmptyContent, Violation::NoTags];
    let text = report(&violations);
    for violation in violations {
        assert!(text.contains(violation.message()));
    }
}
