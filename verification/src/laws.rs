//! Laws of classification and matching, stated over the
//! mathematical model and proved once for all inputs.

use vstd::prelude::*;
use crate::charclass::{is_alphanumeric_char, is_numeric_char};
use crate::classify::classifies_to;
use crate::pattern::{group_content, spec_matches, Pattern};

verus! {

/// A single-character pattern matches a line exactly when that
/// character occurs in the line.
pub proof fn lemma_single_char(line: Seq<char>, c: char)
    ensures
        spec_matches(line, Pattern::SingleChar(c)) == line.contains(c),
{
}

/// The word-character pattern matches an empty line vacuously, and
/// fails as soon as one character of the line is not alphanumeric.
pub proof fn lemma_alphanumeric(line: Seq<char>)
    ensures
        line.len() == 0 ==> spec_matches(line, Pattern::Alphanumeric),
        (exists|i: int| 0 <= i < line.len() && !is_alphanumeric_char(#[trigger] line[i]))
            ==> !spec_matches(line, Pattern::Alphanumeric),
{
}

/// The digit pattern matches exactly when some character of the
/// line is numeric; in particular it never matches an empty line.
pub proof fn lemma_digit(line: Seq<char>)
    ensures
        spec_matches(line, Pattern::Digit) <==> (exists|i: int|
            0 <= i < line.len() && is_numeric_char(#[trigger] line[i])),
        line.len() == 0 ==> !spec_matches(line, Pattern::Digit),
{
}

/// A negated group whose excluded set is empty — the token `[^]` —
/// matches every line: a line contains none of no characters.
pub proof fn lemma_group_negated_empty(line: Seq<char>, s: String)
    requires
        s@ == seq!['[', '^', ']'],
    ensures
        spec_matches(line, Pattern::Group(s)),
{
    assert(group_content(s@) =~= seq!['^']);
}

/// Two patterns agree up to the character sequences they carry.
pub open spec fn same_pattern(p1: Pattern, p2: Pattern) -> bool {
    match (p1, p2) {
        (Pattern::SingleChar(a), Pattern::SingleChar(b)) => a == b,
        (Pattern::Digit, Pattern::Digit) => true,
        (Pattern::Alphanumeric, Pattern::Alphanumeric) => true,
        (Pattern::Group(s1), Pattern::Group(s2)) => s1@ == s2@,
        _ => false,
    }
}

/// Classification is deterministic: one raw token classifies to at
/// most one pattern. Together with the contract of
/// [`crate::classify`], classifying the same token twice yields
/// equal pattern values.
pub proof fn lemma_classify_deterministic(raw: Seq<char>, p1: Pattern, p2: Pattern)
    requires
        classifies_to(raw, p1),
        classifies_to(raw, p2),
    ensures
        same_pattern(p1, p2),
{
}

/// Matching is a pure function of the line and the pattern: with
/// the contract of [`crate::match_pattern`], two evaluations of one
/// pattern against one line return the same boolean.
pub proof fn lemma_match_deterministic(line: Seq<char>, p: Pattern, r1: bool, r2: bool)
    requires
        r1 == spec_matches(line, p),
        r2 == spec_matches(line, p),
    ensures
        r1 == r2,
{
}

} // verus!
