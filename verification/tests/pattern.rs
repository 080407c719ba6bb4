use blog_api::database::pattern::like_literal;

#[test]
fn a_text_without_special_characters_is_its_own_pattern() {
    assert_eq!(like_literal(""), "");
    assert_eq!(like_literal("rust"), "rust");
    assert_eq!(like_literal("Rust & SQL, ünïcödé"), "Rust & SQL, ünïcödé");
}

#[test]
fn each_special_character_gets_a_backslash() {
    assert_eq!(like_literal("%"), "\\%");
    assert_eq!(like_literal("_"), "\\_");
    assert_eq!(like_literal("\\"), "\\\\");
}

#[test]
fn special_characters_are_escaped_wherever_they_stand() {
    assert_eq!(like_literal("50% off"), "50\\% off");
    assert_eq!(like_literal("snake_case_name"), "snake\\_case\\_name");
    assert_eq!(like_literal("\\%"), "\\\\\\%");
    assert_eq!(like_literal("%%__"), "\\%\\%\\_\\_");
}
