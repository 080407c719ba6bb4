//! LIKE patterns that match a text literally.
//!
//! In a LIKE pattern a percent sign stands for any run of characters, an
//! underscore for any one character, and a backslash takes the special
//! meaning from the character that follows it. A text that is to be found
//! as it is therefore needs a backslash before each of the three.

use vstd::prelude::*;

verus! {

/// `String::push`: the character is appended to the end of the text.
pub assume_specification[ String::push ](text: &mut String, character: char)
    ensures
        final(text)@ == old(text)@.push(character),
;

/// Whether a character has a special meaning in a LIKE pattern.
pub open spec fn is_like_special(character: char) -> bool {
    character == '\\' || character == '%' || character == '_'
}

/// The part of a pattern that matches one character literally.
pub open spec fn like_literal_char(character: char) -> Seq<char> {
    if is_like_special(character) {
        seq!['\\', character]
    } else {
        seq![character]
    }
}

/// `term` with a backslash before every backslash, percent sign and
/// underscore, and every other character as it is.
pub open spec fn like_literal_text(term: Seq<char>) -> Seq<char>
    decreases term.len(),
{
    if term.len() == 0 {
        Seq::empty()
    } else {
        like_literal_text(term.drop_last()) + like_literal_char(term.last())
    }
}

/// The LIKE pattern that matches `term` literally.
pub fn like_literal(term: &str) -> (pattern: String)
    ensures
        pattern@ == like_literal_text(term@),
{
    broadcast use vstd::string::group_string_axioms;

    let mut pattern = String::new();
    for character in position: term.chars()
        invariant
            position.seq() == term@,
            pattern@ == like_literal_text(term@.take(position.index() as int)),
    {
        let ghost before = pattern@;
        let ghost longer = term@.take(position.index() + 1);
        if character == '\\' || character == '%' || character == '_' {
            pattern.push('\\');
        }
        pattern.push(character);
        proof {
            assert(longer.drop_last() =~= term@.take(position.index() as int));
            assert(longer.last() == character);
            assert(pattern@ =~= before + like_literal_char(character));
        }
    }
    proof {
        assert(term@.take(term@.len() as int) =~= term@);
    }
    pattern
}

/// The text that a LIKE pattern stands for when it matches one text only:
/// a backslash gives the character after it, any other character but a
/// percent sign and an underscore gives itself. A pattern with a bare
/// percent sign or underscore matches more than one text, and one that ends
/// in a lone backslash is no pattern; neither stands for a text.
pub open spec fn like_reading(pattern: Seq<char>) -> Option<Seq<char>>
    decreases pattern.len(),
{
    if pattern.len() == 0 {
        Some(Seq::empty())
    } else if pattern[0] == '\\' {
        if pattern.len() == 1 {
            None
        } else {
            match like_reading(pattern.skip(2)) {
                Some(rest) => Some(seq![pattern[1]] + rest),
                None => None,
            }
        }
    } else if pattern[0] == '%' || pattern[0] == '_' {
        None
    } else {
        match like_reading(pattern.skip(1)) {
            Some(rest) => Some(seq![pattern[0]] + rest),
            None => None,
        }
    }
}

/// Two patterns that each stand for a text stand, one after the other, for
/// the two texts one after the other.
proof fn lemma_reading_of_two(first: Seq<char>, second: Seq<char>)
    requires
        like_reading(first) is Some,
        like_reading(second) is Some,
    ensures
        like_reading(first + second) == Some(
            like_reading(first)->Some_0 + like_reading(second)->Some_0,
        ),
    decreases first.len(),
{
    let both = first + second;
    if first.len() == 0 {
        assert(both =~= second);
        assert(Seq::<char>::empty() + like_reading(second)->Some_0 =~= like_reading(second)->Some_0);
    } else if first[0] == '\\' {
        lemma_reading_of_two(first.skip(2), second);
        assert(both.skip(2) =~= first.skip(2) + second);
        assert(seq![first[1]] + (like_reading(first.skip(2))->Some_0 + like_reading(
            second,
        )->Some_0) =~= (seq![first[1]] + like_reading(first.skip(2))->Some_0) + like_reading(
            second,
        )->Some_0);
    } else {
        lemma_reading_of_two(first.skip(1), second);
        assert(both.skip(1) =~= first.skip(1) + second);
        assert(seq![first[0]] + (like_reading(first.skip(1))->Some_0 + like_reading(
            second,
        )->Some_0) =~= (seq![first[0]] + like_reading(first.skip(1))->Some_0) + like_reading(
            second,
        )->Some_0);
    }
}

/// The pattern made for a term stands for that term and for nothing else:
/// it holds no bare percent sign or underscore, and read back it is the
/// term, character for character.
pub proof fn lemma_like_literal_stands_for_the_term(term: Seq<char>)
    ensures
        like_reading(like_literal_text(term)) == Some(term),
    decreases term.len(),
{
    if term.len() == 0 {
    } else {
        let last = like_literal_char(term.last());
        lemma_like_literal_stands_for_the_term(term.drop_last());
        assert(like_reading(last) == Some(seq![term.last()])) by {
            reveal_with_fuel(like_reading, 3);
            if is_like_special(term.last()) {
                assert(last.skip(2) =~= Seq::<char>::empty());
            } else {
                assert(last.skip(1) =~= Seq::<char>::empty());
            }
            assert(seq![term.last()] + Seq::<char>::empty() =~= seq![term.last()]);
        }
        lemma_reading_of_two(like_literal_text(term.drop_last()), last);
        assert(term.drop_last() + seq![term.last()] =~= term);
    }
}

} // verus!
