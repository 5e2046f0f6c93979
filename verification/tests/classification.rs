use linematch::{classify, match_pattern, ClassificationError, Pattern};

#[test]
fn classify_digit_escape() {
    assert_eq!(classify("\\d"), Ok(Pattern::Digit));
}

#[test]
fn classify_word_escape() {
    assert_eq!(classify("\\w"), Ok(Pattern::Alphanumeric));
}

#[test]
fn classify_single_char() {
    assert_eq!(classify("a"), Ok(Pattern::SingleChar('a')));
    assert_eq!(classify("["), Ok(Pattern::SingleChar('[')));
    assert_eq!(classify("]"), Ok(Pattern::SingleChar(']')));
}

#[test]
fn classify_single_char_counts_logical_characters() {
    assert_eq!(classify("\u{e9}"), Ok(Pattern::SingleChar('\u{e9}')));
}

#[test]
fn classify_group_verbatim() {
    assert_eq!(classify("[xyz]"), Ok(Pattern::Group(String::from("[xyz]"))));
    assert_eq!(classify("[^abc]"), Ok(Pattern::Group(String::from("[^abc]"))));
    assert_eq!(classify("[]"), Ok(Pattern::Group(String::from("[]"))));
}

#[test]
fn classify_rejects_unrecognized_tokens() {
    assert_eq!(classify("ab"), Err(ClassificationError));
    assert_eq!(classify(""), Err(ClassificationError));
    assert_eq!(classify("\\x"), Err(ClassificationError));
    assert_eq!(classify("[abc"), Err(ClassificationError));
    assert_eq!(classify("abc]"), Err(ClassificationError));
}

#[test]
fn classify_is_pure() {
    assert_eq!(classify("[abc]"), classify("[abc]"));
    assert_eq!(classify("\\d"), classify("\\d"));
    assert_eq!(classify("q"), classify("q"));
    assert_eq!(classify("nope"), classify("nope"));
}

#[test]
fn classify_then_match() {
    let pattern = classify("[abc]").unwrap();
    assert!(match_pattern("apple", pattern));
    let pattern = classify("\\d").unwrap();
    assert!(match_pattern("a1", pattern));
    let pattern = classify("\\w").unwrap();
    assert!(!match_pattern("a b", pattern));
}
