//! The typed pattern and the mathematical model of matching.

use vstd::prelude::*;
use crate::charclass::{is_alphanumeric_char, is_numeric_char};

verus! {

/// A matching rule, classified from a raw pattern token.
///
/// `SingleChar` and `Digit` match when some character of the line
/// satisfies them; `Alphanumeric` matches only when every character
/// does; `Group` carries a bracket expression verbatim, brackets
/// included, and matches by literal set membership, positive or
/// (with a leading `^` inside the brackets) negated.
#[derive(Debug, PartialEq, Eq)]
pub enum Pattern {
    SingleChar(char),
    Digit,
    Alphanumeric,
    Group(String),
}

/// The content of a bracket group: at most one leading `[` and, from
/// what remains, at most one trailing `]` are stripped.
pub open spec fn group_content(s: Seq<char>) -> Seq<char> {
    let start: int = if s.len() > 0 && s[0] == '[' {
        1
    } else {
        0
    };
    let end: int = if s.len() > start && s[s.len() - 1] == ']' {
        s.len() - 1
    } else {
        s.len() as int
    };
    s.subrange(start, end)
}

/// Whether a group with the given (already unbracketed) content
/// matches the line. A leading `^` negates: the line must contain
/// none of the remaining characters (vacuously true when there are
/// none). Otherwise the line must contain at least one character of
/// the content (vacuously false when the content is empty).
pub open spec fn group_matches(line: Seq<char>, content: Seq<char>) -> bool {
    if content.len() > 0 && content[0] == '^' {
        forall|i: int| 1 <= i < content.len() ==> !line.contains(#[trigger] content[i])
    } else {
        exists|i: int| 0 <= i < content.len() && line.contains(#[trigger] content[i])
    }
}

/// What it means for `p` to match `line`.
pub open spec fn spec_matches(line: Seq<char>, p: Pattern) -> bool {
    match p {
        Pattern::SingleChar(c) => line.contains(c),
        Pattern::Digit => exists|i: int| 0 <= i < line.len() && is_numeric_char(#[trigger] line[i]),
        Pattern::Alphanumeric => forall|i: int|
            0 <= i < line.len() ==> is_alphanumeric_char(#[trigger] line[i]),
        Pattern::Group(s) => group_matches(line, group_content(s@)),
    }
}

} // verus!
