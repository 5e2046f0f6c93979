//! Character classification, delegated to the host's standard library.
//!
//! Which characters count as numeric or alphanumeric is decided by
//! `char::is_numeric` and `char::is_alphanumeric`. Both are pure
//! functions of the character alone; their results are given names
//! here so that contracts can speak about them exactly.

use vstd::prelude::*;

verus! {

/// Whether the host classifies `c` as a numeric character.
pub uninterp spec fn is_numeric_char(c: char) -> bool;

/// Whether the host classifies `c` as an alphanumeric character.
pub uninterp spec fn is_alphanumeric_char(c: char) -> bool;

/// Relies on char::is_numeric: whether a character has a numeric
/// Unicode property, a function of the character alone.
pub assume_specification[ char::is_numeric ](c: char) -> (r: bool)
    ensures
        r == is_numeric_char(c),
;

/// Relies on char::is_alphanumeric: whether a character is
/// alphabetic or numeric, a function of the character alone.
pub assume_specification[ char::is_alphanumeric ](c: char) -> (r: bool)
    ensures
        r == is_alphanumeric_char(c),
;

} // verus!
