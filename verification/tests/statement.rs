use blog_api::database::statement::{Parameter, Statement};

fn texts(items: &[&str]) -> Vec<String> {
    items.iter().map(|item| item.to_string()).collect()
}

#[test]
fn insert_binds_the_four_fields_in_column_order() {
    let statement = Statement::InsertPost {
        title: "T".to_string(),
        content: "C".to_string(),
        category: "K".to_string(),
        tags: texts(&["a", "b"]),
    };
    assert_eq!(
        statement.sql(),
        "INSERT INTO blog_posts (title, content, category, tags) VALUES ($1, $2, $3, $4) RETURNING *"
    );
    assert_eq!(
        statement.into_parameters(),
        vec![
            Parameter::Text("T".to_string()),
            Parameter::Text("C".to_string()),
            Parameter::Text("K".to_string()),
            Parameter::TextArray(texts(&["a", "b"])),
        ]
    );
}

#[test]
fn update_binds_the_identifier_last() {
    let statement = Statement::UpdatePost {
        id: 7,
        title: "T".to_string(),
        content: "C".to_string(),
        category: "K".to_string(),
        tags: texts(&["a"]),
    };
    assert_eq!(
        statement.sql(),
        "UPDATE blog_posts SET title = $1, content = $2, category = $3, tags = $4, updated_at = now() WHERE id = $5 RETURNING *"
    );
    assert_eq!(
        statement.into_parameters(),
        vec![
            Parameter::Text("T".to_string()),
            Parameter::Text("C".to_string()),
            Parameter::Text("K".to_string()),
            Parameter::TextArray(texts(&["a"])),
            Parameter::Integer(7),
        ]
    );
}

#[test]
fn lookups_and_deletions_bind_the_identifier() {
    let lookup = Statement::SelectPost { id: -3 };
    assert_eq!(lookup.sql(), "SELECT * FROM blog_posts WHERE id = $1");
    assert_eq!(lookup.into_parameters(), vec![Parameter::Integer(-3)]);
    let deletion = Statement::DeletePost { id: i32::MAX };
    assert_eq!(deletion.sql(), "DELETE FROM blog_posts WHERE id = $1");
    assert_eq!(deletion.into_parameters(), vec![Parameter::Integer(i32::MAX)]);
}

#[test]
fn a_search_binds_the_pattern_once() {
    let statement = Statement::SearchPosts { pattern: "rust".to_string() };
    assert_eq!(
        statement.sql(),
        "SELECT * FROM blog_posts WHERE title ILIKE '%' || $1 || '%' OR content ILIKE '%' || $1 || '%' OR array_to_string(tags, ',') ILIKE '%' || $1 || '%'"
    );
    assert_eq!(statement.into_parameters(), vec![Parameter::Text("rust".to_string())]);
}

#[test]
fn listing_and_indexing_bind_nothing() {
    assert_eq!(Statement::SelectPosts.sql(), "SELECT * FROM blog_posts");
    assert_eq!(Statement::SelectPosts.into_parameters(), vec![]);
    assert_eq!(
        Statement::CreateSearchIndex.sql(),
        "CREATE INDEX IF NOT EXISTS idx_fts ON blog_posts USING GIN (to_tsvector('english', title || ' ' || content || ' ' || tags))"
    );
    assert_eq!(Statement::CreateSearchIndex.into_parameters(), vec![]);
}

#[test]
fn the_text_does_not_depend_on_the_values() {
    let harmless = Statement::SearchPosts { pattern: "rust".to_string() };
    let hostile = Statement::SearchPosts { pattern: "'; DROP TABLE blog_posts; --".to_string() };
    assert_eq!(harmless.sql(), hostile.sql());
    assert_eq!(
        hostile.into_parameters(),
        vec![Parameter::Text("'; DROP TABLE blog_posts; --".to_string())]
    );
}
