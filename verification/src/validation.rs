//! The rules that a payload must meet, and how a refusal is worded.

use vstd::prelude::*;

verus! {

/// What the length rule of the `validator` crate accepts: with `equal` set
/// the length must be exactly that, otherwise it must not be under `min` nor
/// over `max`, as far as they are set.
pub open spec fn length_accepted(
    length: nat,
    min: Option<u64>,
    max: Option<u64>,
    equal: Option<u64>,
) -> bool {
    match equal {
        Some(exact) => length == exact,
        None => {
            &&& min matches Some(least) ==> length >= least
            &&& max matches Some(most) ==> length <= most
        },
    }
}

/// Applies the length rule to a text, whose length is its number of characters.
///
/// Trusted: the body calls `validator::ValidateLength::validate_length` on a
/// `String`. The crate counts the characters of the text and compares the
/// count as `length_accepted` says.
#[verifier::external_body]
pub(crate) fn text_length_accepted(
    text: &String,
    min: Option<u64>,
    max: Option<u64>,
    equal: Option<u64>,
) -> (accepted: bool)
    ensures
        accepted == length_accepted(text@.len(), min, max, equal),
{
    validator::ValidateLength::validate_length(text, min, max, equal)
}

/// Applies the length rule to a list of texts, whose length is its number of items.
///
/// Trusted: the body calls `validator::ValidateLength::validate_length` on a
/// `Vec`. The crate takes the vector's `len()` and compares it as
/// `length_accepted` says.
#[verifier::external_body]
pub(crate) fn list_length_accepted(
    items: &Vec<String>,
    min: Option<u64>,
    max: Option<u64>,
    equal: Option<u64>,
) -> (accepted: bool)
    ensures
        accepted == length_accepted(items@.len(), min, max, equal),
{
    validator::ValidateLength::validate_length(items, min, max, equal)
}

/// One rule that a payload has broken.
#[derive(Debug, Clone, Copy, PartialEq, Eq, Structural)]
pub enum Violation {
    /// The title is empty.
    EmptyTitle,
    /// The content is empty.
    EmptyContent,
    /// The category is empty.
    EmptyCategory,
    /// There is no tag.
    NoTags,
}

impl Violation {
    /// The name of the field that broke the rule.
    pub open spec fn field_text(self) -> Seq<char> {
        match self {
            Violation::EmptyTitle => "title"@,
            Violation::EmptyContent => "content"@,
            Violation::EmptyCategory => "category"@,
            Violation::NoTags => "tags"@,
        }
    }

    /// The sentence that tells the client what is wrong.
    pub open spec fn message_text(self) -> Seq<char> {
        match self {
            Violation::EmptyTitle => "Title cannot be empty"@,
            Violation::EmptyContent => "Content cannot be empty"@,
            Violation::EmptyCategory => "Category cannot be empty"@,
            Violation::NoTags => "At least one tag is required"@,
        }
    }

    /// The line of a report for this violation: the field, a colon and a
    /// space, then the message.
    pub open spec fn line_text(self) -> Seq<char> {
        self.field_text() + ": "@ + self.message_text()
    }

    /// The name of the field that broke the rule.
    pub fn field(self) -> (name: &'static str)
        ensures
            name@ == self.field_text(),
    {
        match self {
            Violation::EmptyTitle => "title",
            Violation::EmptyContent => "content",
            Violation::EmptyCategory => "category",
            Violation::NoTags => "tags",
        }
    }

    /// The sentence that tells the client what is wrong.
    pub fn message(self) -> (sentence: &'static str)
        ensures
            sentence@ == self.message_text(),
    {
        match self {
            Violation::EmptyTitle => "Title cannot be empty",
            Violation::EmptyContent => "Content cannot be empty",
            Violation::EmptyCategory => "Category cannot be empty",
            Violation::NoTags => "At least one tag is required",
        }
    }
}

/// The report on a list of violations: one line for each, in the order of
/// the list, with a line feed between two lines and none at the end.
pub open spec fn report_text(violations: Seq<Violation>) -> Seq<char>
    decreases violations.len(),
{
    if violations.len() == 0 {
        Seq::empty()
    } else if violations.len() == 1 {
        violations[0].line_text()
    } else {
        report_text(violations.drop_last()) + "\n"@ + violations.last().line_text()
    }
}

/// Words the report on a list of violations.
pub fn report(violations: &Vec<Violation>) -> (text: String)
    ensures
        text@ == report_text(violations@),
{
    let mut text = String::new();
    let mut done: usize = 0;
    while done < violations.len()
        invariant
            done <= violations.len(),
            text@ == report_text(violations@.take(done as int)),
        decreases violations.len() - done,
    {
        let ghost before = text@;
        let ghost shorter = violations@.take(done as int);
        let ghost longer = violations@.take(done + 1);
        if done > 0 {
            text.append("\n");
        }
        let violation = violations[done];
        text.append(violation.field());
        text.append(": ");
        text.append(violation.message());
        proof {
            assert(longer.drop_last() =~= shorter);
            assert(longer.last() == violation);
            if done == 0 {
                assert(text@ =~= violation.line_text());
            } else {
                assert(text@ =~= before + "\n"@ + violation.line_text());
            }
        }
        done += 1;
    }
    proof {
        assert(violations@.take(violations.len() as int) =~= violations@);
    }
    text
}

/// Whether `part` stands somewhere in `whole`, as one run of characters.
pub open spec fn occurs_in(part: Seq<char>, whole: Seq<char>) -> bool {
    exists|start: int|
        0 <= start && start + part.len() <= whole.len() && #[trigger] whole.subrange(
            start,
            start + part.len(),
        ) == part
}

/// What stands in a text still stands in it when more text follows.
proof fn lemma_occurs_in_longer(part: Seq<char>, whole: Seq<char>, tail: Seq<char>)
    requires
        occurs_in(part, whole),
    ensures
        occurs_in(part, whole + tail),
{
    let start = choose|start: int|
        0 <= start && start + part.len() <= whole.len() && #[trigger] whole.subrange(
            start,
            start + part.len(),
        ) == part;
    assert((whole + tail).subrange(start, start + part.len()) =~= part);
}

/// The line of a violation holds its message.
proof fn lemma_line_holds_message(violation: Violation, head: Seq<char>)
    ensures
        occurs_in(violation.message_text(), head + violation.line_text()),
{
    let message = violation.message_text();
    let whole = head + violation.line_text();
    let start = (head.len() + violation.field_text().len() + ": "@.len()) as int;
    assert(whole.subrange(start, start + message.len()) =~= message);
}

/// The report on a list of violations holds the message of each of them.
pub proof fn lemma_report_holds_each_message(violations: Seq<Violation>, index: int)
    requires
        0 <= index < violations.len(),
    ensures
        occurs_in(violations[index].message_text(), report_text(violations)),
    decreases violations.len(),
{
    if violations.len() == 1 {
        lemma_line_holds_message(violations[0], Seq::empty());
        assert(Seq::<char>::empty() + violations[0].line_text() =~= violations[0].line_text());
    } else if index == violations.len() - 1 {
        lemma_line_holds_message(
            violations.last(),
            report_text(violations.drop_last()) + "\n"@,
        );
    } else {
        lemma_report_holds_each_message(violations.drop_last(), index);
        lemma_occurs_in_longer(
            violations[index].message_text(),
            report_text(violations.drop_last()),
            "\n"@ + violations.last().line_text(),
        );
        assert(report_text(violations.drop_last()) + ("\n"@ + violations.last().line_text())
            =~= report_text(violations));
    }
}

} // verus!
