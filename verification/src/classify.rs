//! The classifier: from a raw pattern token to a typed [`Pattern`].

use vstd::prelude::*;
use crate::pattern::Pattern;

verus! {

/// The raw token that names the digit class.
pub open spec fn digit_token() -> Seq<char> {
    seq!['\\', 'd']
}

/// The raw token that names the word-character (alphanumeric) class.
pub open spec fn word_token() -> Seq<char> {
    seq!['\\', 'w']
}

/// A bracket expression: at least two characters, the first `[` and
/// the last `]`.
pub open spec fn is_group_token(raw: Seq<char>) -> bool {
    raw.len() >= 2 && raw[0] == '[' && raw[raw.len() - 1] == ']'
}

/// The tokens the classifier recognizes: the two class escapes, any
/// single character, and bracket expressions.
pub open spec fn recognized(raw: Seq<char>) -> bool {
    ||| raw == digit_token()
    ||| raw == word_token()
    ||| raw.len() == 1
    ||| is_group_token(raw)
}

/// Which pattern the raw token `raw` classifies to. For any `raw`
/// at most one variant (with, for `SingleChar` and `Group`, exactly
/// one payload up to character-sequence equality) satisfies this.
pub open spec fn classifies_to(raw: Seq<char>, p: Pattern) -> bool {
    match p {
        Pattern::Digit => raw == digit_token(),
        Pattern::Alphanumeric => raw == word_token(),
        Pattern::SingleChar(c) => raw.len() == 1 && raw[0] == c,
        Pattern::Group(s) => is_group_token(raw) && s@ == raw,
    }
}

/// The raw pattern token matched none of the recognized forms.
#[derive(Debug, PartialEq, Eq, Structural)]
pub struct ClassificationError;

/// Classifies a raw pattern token, or reports that it is not a
/// recognized form. Succeeds exactly on the tokens [`recognized`]
/// accepts, and the returned pattern is the one the token
/// [`classifies_to`].
pub fn classify(raw: &str) -> (r: Result<Pattern, ClassificationError>)
    ensures
        r is Ok <==> recognized(raw@),
        match r {
            Ok(p) => classifies_to(raw@, p),
            Err(_) => !recognized(raw@),
        },
{
    let n: usize = raw.unicode_len();
    if n == 1 {
        return Ok(Pattern::SingleChar(raw.get_char(0)));
    }
    if n == 2 {
        let c0: char = raw.get_char(0);
        let c1: char = raw.get_char(1);
        if c0 == '\\' && c1 == 'd' {
            proof {
                assert(raw@ =~= digit_token());
            }
            return Ok(Pattern::Digit);
        }
        if c0 == '\\' && c1 == 'w' {
            proof {
                assert(raw@ =~= word_token());
            }
            return Ok(Pattern::Alphanumeric);
        }
    }
    if n >= 2 {
        let c0: char = raw.get_char(0);
        let cl: char = raw.get_char(n - 1);
        if c0 == '[' && cl == ']' {
            return Ok(Pattern::Group(raw.to_owned()));
        }
    }
    Err(ClassificationError)
}

} // verus!
