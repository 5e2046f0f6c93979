//! The matcher: one exhaustive case analysis over [`Pattern`].

use vstd::prelude::*;
use crate::charclass::{is_alphanumeric_char, is_numeric_char};
use crate::pattern::{group_content, group_matches, spec_matches, Pattern};

verus! {

/// True iff the character `c` occurs somewhere in `s`.
fn str_contains_char(s: &str, c: char) -> (r: bool)
    ensures
        r == s@.contains(c),
{
    let n: usize = s.unicode_len();
    let mut i: usize = 0;
    while i < n
        invariant
            n == s@.len(),
            i <= n,
            forall|j: int| 0 <= j < i ==> s@[j] != c,
        decreases n - i,
    {
        if s.get_char(i) == c {
            return true;
        }
        i += 1;
    }
    false
}

/// True iff some character of `line` is numeric.
fn has_numeric_char(line: &str) -> (r: bool)
    ensures
        r == exists|i: int| 0 <= i < line@.len() && is_numeric_char(#[trigger] line@[i]),
{
    let n: usize = line.unicode_len();
    let mut i: usize = 0;
    while i < n
        invariant
            n == line@.len(),
            i <= n,
            forall|j: int| 0 <= j < i ==> !is_numeric_char(#[trigger] line@[j]),
        decreases n - i,
    {
        if line.get_char(i).is_numeric() {
            return true;
        }
        i += 1;
    }
    false
}

/// True iff every character of `line` is alphanumeric (vacuously
/// true for an empty line).
fn all_alphanumeric_chars(line: &str) -> (r: bool)
    ensures
        r == forall|i: int| 0 <= i < line@.len() ==> is_alphanumeric_char(#[trigger] line@[i]),
{
    let n: usize = line.unicode_len();
    let mut i: usize = 0;
    while i < n
        invariant
            n == line@.len(),
            i <= n,
            forall|j: int| 0 <= j < i ==> is_alphanumeric_char(#[trigger] line@[j]),
        decreases n - i,
    {
        if !line.get_char(i).is_alphanumeric() {
            return false;
        }
        i += 1;
    }
    true
}

/// Evaluates a bracket group, carried verbatim in `s`, against `line`.
fn group_matches_line(line: &str, s: &String) -> (r: bool)
    ensures
        r == group_matches(line@, group_content(s@)),
{
    let g: &str = s.as_str();
    let n: usize = g.unicode_len();
    let start: usize = if n > 0 && g.get_char(0) == '[' {
        1
    } else {
        0
    };
    let end: usize = if n > start && g.get_char(n - 1) == ']' {
        n - 1
    } else {
        n
    };
    let content: &str = g.substring_char(start, end);
    proof {
        assert(content@ =~= group_content(s@));
    }
    let m: usize = content.unicode_len();
    if m > 0 && content.get_char(0) == '^' {
        let mut i: usize = 1;
        while i < m
            invariant
                content@ == group_content(s@),
                m == content@.len(),
                1 <= i <= m,
                content@.len() > 0 && content@[0] == '^',
                forall|j: int| 1 <= j < i ==> !line@.contains(#[trigger] content@[j]),
            decreases m - i,
        {
            let ci: char = content.get_char(i);
            if str_contains_char(line, ci) {
                proof {
                    assert(group_content(s@)[i as int] == ci);
                }
                return false;
            }
            i += 1;
        }
        true
    } else {
        let mut i: usize = 0;
        while i < m
            invariant
                content@ == group_content(s@),
                m == content@.len(),
                i <= m,
                !(content@.len() > 0 && content@[0] == '^'),
                forall|j: int| 0 <= j < i ==> !line@.contains(#[trigger] content@[j]),
            decreases m - i,
        {
            let ci: char = content.get_char(i);
            if str_contains_char(line, ci) {
                proof {
                    assert(group_content(s@)[i as int] == ci);
                }
                return true;
            }
            i += 1;
        }
        false
    }
}

/// Decides whether `pattern` matches `input_line`; the meaning of
/// "matches" for each variant is [`spec_matches`]. Total: every
/// pattern value has a defined evaluation.
pub fn match_pattern(input_line: &str, pattern: Pattern) -> (r: bool)
    ensures
        r == spec_matches(input_line@, pattern),
{
    match pattern {
        Pattern::SingleChar(c) => str_contains_char(input_line, c),
        Pattern::Digit => has_numeric_char(input_line),
        Pattern::Alphanumeric => all_alphanumeric_chars(input_line),
        Pattern::Group(s) => group_matches_line(input_line, &s),
    }
}

} // verus!
