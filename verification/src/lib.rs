//! A minimal single-line text matcher.
//!
//! A raw pattern token is classified into a typed [`Pattern`]
//! (a single character, the digit class, the word-character class,
//! or a bracket group), and a matcher decides whether that pattern
//! is present in — or, for the word-character class, fully
//! describes — one line of input.

pub mod charclass;
pub mod classify;
pub mod laws;
pub mod matcher;
pub mod pattern;

pub use classify::classify;
pub use classify::ClassificationError;
pub use matcher::match_pattern;
pub use pattern::Pattern;
