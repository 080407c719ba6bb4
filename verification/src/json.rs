//! JSON text, as the `serde_json` crate writes it.

use vstd::prelude::*;

verus! {

/// The lower-case hexadecimal digit of a value under sixteen.
pub open spec fn hex_digit(value: int) -> char {
    if value == 0 {
        '0'
    } else if value == 1 {
        '1'
    } else if value == 2 {
        '2'
    } else if value == 3 {
        '3'
    } else if value == 4 {
        '4'
    } else if value == 5 {
        '5'
    } else if value == 6 {
        '6'
    } else if value == 7 {
        '7'
    } else if value == 8 {
        '8'
    } else if value == 9 {
        '9'
    } else if value == 10 {
        'a'
    } else if value == 11 {
        'b'
    } else if value == 12 {
        'c'
    } else if value == 13 {
        'd'
    } else if value == 14 {
        'e'
    } else {
        'f'
    }
}

/// Whether a character may not stand as it is in a JSON string literal: the
/// double quote, the backslash and the control characters under U+0020.
pub open spec fn needs_escape(character: char) -> bool {
    character == '"' || character == '\\' || (character as u32) < 0x20
}

/// How one character stands in a JSON string literal: a double quote and a
/// backslash behind a backslash; backspace, tab, line feed, form feed and
/// carriage return as their letter behind a backslash; any other control
/// character under U+0020 as `\u00` and two hexadecimal digits; every other
/// character as it is.
pub open spec fn json_escape(character: char) -> Seq<char> {
    if character == '"' {
        seq!['\\', '"']
    } else if character == '\\' {
        seq!['\\', '\\']
    } else if character == '\u{8}' {
        seq!['\\', 'b']
    } else if character == '\t' {
        seq!['\\', 't']
    } else if character == '\n' {
        seq!['\\', 'n']
    } else if character == '\u{c}' {
        seq!['\\', 'f']
    } else if character == '\r' {
        seq!['\\', 'r']
    } else if (character as u32) < 0x20 {
        seq![
            '\\',
            'u',
            '0',
            '0',
            hex_digit((character as u32) as int / 16),
            hex_digit((character as u32) as int % 16),
        ]
    } else {
        seq![character]
    }
}

/// The characters of a text, each as it stands in a JSON string literal.
pub open spec fn json_escaped(text: Seq<char>) -> Seq<char>
    decreases text.len(),
{
    if text.len() == 0 {
        Seq::empty()
    } else {
        json_escaped(text.drop_last()) + json_escape(text.last())
    }
}

/// The JSON string literal of a text: its characters, escaped where they
/// must be, between two double quotes.
pub open spec fn json_string(text: Seq<char>) -> Seq<char> {
    seq!['"'] + json_escaped(text) + seq!['"']
}

/// Writes `text` as a JSON string literal.
///
/// Trusted: the body hands the text to `serde_json` as a `Value::String` and
/// takes the compact rendering that the crate's `Display` for `Value` gives.
/// The crate writes a double quote, then the text with each character that
/// its escape table marks replaced as `json_escape` says, then a double
/// quote.
#[verifier::external_body]
pub(crate) fn encode_string(text: &str) -> (encoded: String)
    ensures
        encoded@ == json_string(text@),
{
    serde_json::Value::String(text.to_owned()).to_string()
}

/// A text without a character that needs an escape is its own content in a
/// JSON string literal: the literal is the text between two double quotes.
pub proof fn lemma_plain_text_is_quoted(text: Seq<char>)
    requires
        forall|at: int| 0 <= at < text.len() ==> !needs_escape(#[trigger] text[at]),
    ensures
        json_string(text) == seq!['"'] + text + seq!['"'],
{
    lemma_plain_text_is_unchanged(text);
}

/// A text without a character that needs an escape is escaped to itself.
proof fn lemma_plain_text_is_unchanged(text: Seq<char>)
    requires
        forall|at: int| 0 <= at < text.len() ==> !needs_escape(#[trigger] text[at]),
    ensures
        json_escaped(text) == text,
    decreases text.len(),
{
    if text.len() > 0 {
        lemma_plain_text_is_unchanged(text.drop_last());
        assert(!needs_escape(text[text.len() - 1]));
        assert(text.drop_last() + seq![text.last()] =~= text);
    }
}

} // verus!
