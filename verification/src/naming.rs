//! Naming conventions for generated records and their fields.

use vstd::prelude::*;

verus! {

/// An ASCII small letter as its capital; every other character as it is.
pub open spec fn ascii_upper(c: char) -> char {
    if 'a' <= c && c <= 'z' {
        ((c as u8 - 32) as u8) as char
    } else {
        c
    }
}

/// An ASCII capital as its small letter; every other character as it is.
pub open spec fn ascii_lower(c: char) -> char {
    if 'A' <= c && c <= 'Z' {
        ((c as u8 + 32) as u8) as char
    } else {
        c
    }
}

/// What the character at a position gives to the camel-case form: an
/// underscore gives nothing; a character at the start or behind an
/// underscore gives its capital; every other character gives itself.
pub open spec fn camel_piece(text: Seq<char>, at: int) -> Seq<char> {
    if text[at] == '_' {
        Seq::empty()
    } else if at == 0 || text[at - 1] == '_' {
        seq![ascii_upper(text[at])]
    } else {
        seq![text[at]]
    }
}

/// The camel-case form of the first `count` characters of a text.
pub open spec fn camel_prefix(text: Seq<char>, count: nat) -> Seq<char>
    decreases count,
{
    if count == 0 || count > text.len() {
        Seq::empty()
    } else {
        camel_prefix(text, (count - 1) as nat) + camel_piece(text, count - 1)
    }
}

/// The capitalized camel-case form of a snake-case text: the underscores
/// leave, and each word starts with a capital.
pub open spec fn camel_case_of(text: Seq<char>) -> Seq<char> {
    camel_prefix(text, text.len())
}

/// What the character at a position gives to the snake-case form: an ASCII
/// capital gives its small letter, behind an underscore unless it stands at
/// the start; every other character gives itself.
pub open spec fn snake_piece(text: Seq<char>, at: int) -> Seq<char> {
    if 'A' <= text[at] && text[at] <= 'Z' {
        if at == 0 {
            seq![ascii_lower(text[at])]
        } else {
            seq!['_', ascii_lower(text[at])]
        }
    } else {
        seq![text[at]]
    }
}

/// The snake-case form of the first `count` characters of a text.
pub open spec fn snake_prefix(text: Seq<char>, count: nat) -> Seq<char>
    decreases count,
{
    if count == 0 || count > text.len() {
        Seq::empty()
    } else {
        snake_prefix(text, (count - 1) as nat) + snake_piece(text, count - 1)
    }
}

/// The snake-case form of a camel-case text.
pub open spec fn snake_case_of(text: Seq<char>) -> Seq<char> {
    snake_prefix(text, text.len())
}

/// Calls `case::CaseExt::to_camel` on the text.  The contract states what
/// that function's source does, character by character: it drops every
/// underscore and writes the capital of each character that stands at the
/// start or behind an underscore.  Nothing is proved of it.
#[verifier::external_body]
pub(crate) fn to_camel(text: &str) -> (r: String)
    ensures
        r@ == camel_case_of(text@),
{
    case::CaseExt::to_camel(text)
}

/// Calls `case::CaseExt::to_snake` on the text.  The contract states what
/// that function's source does, character by character: it writes each
/// ASCII capital as its small letter, with an underscore before it unless
/// it is the first character, and keeps every other character.  Nothing is
/// proved of it.
#[verifier::external_body]
pub(crate) fn to_snake(text: &str) -> (r: String)
    ensures
        r@ == snake_case_of(text@),
{
    case::CaseExt::to_snake(text)
}

} // verus!
