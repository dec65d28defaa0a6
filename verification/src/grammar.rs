//! The grammar of a dump, as far as the library reads it: the three patterns
//! that tell a marker comment, a comment with text and a function's
//! signature, and what it means for a pattern to match.

use crate::pattern::{capture, pattern_accepted, pattern_found, pattern_groups, search};
use vstd::prelude::*;

verus! {

/// The pattern of a marker comment: the four fields `Name`, `Type`, `Schema`
/// and `Owner`, each followed by one blank and a value free of semicolons.
pub const MARKER_COMMENT: &'static str =
    r"Name:\s([^;]*);\sType:\s([^;]*);\sSchema:\s([^;]*);\sOwner:\s([^;]*)";

/// The pattern of a comment that carries text: two dashes and at least one
/// more character.
pub const PREAMBLE_COMMENT: &'static str = r"--.+";

/// The pattern of a function's signature: a name, then an argument list in
/// parentheses.
pub const FUNCTION_SIGNATURE: &'static str = r"([^(]*)(\([^)]*\))";

/// Whether `pattern` finds a match in `text`. A pattern that the regular
/// expression engine refuses finds nothing.
pub open spec fn finds(pattern: Seq<char>, text: Seq<char>) -> bool {
    pattern_accepted(pattern) && pattern_found(pattern, text)
}

/// The capture groups of the first match of `pattern` in `text`: the whole
/// match first, then one entry for each group of the pattern, empty where the
/// group took no part. A pattern that the regular expression engine refuses
/// captures nothing.
pub open spec fn captured(pattern: Seq<char>, text: Seq<char>) -> Option<Seq<Option<Seq<char>>>> {
    if pattern_accepted(pattern) {
        pattern_groups(pattern, text)
    } else {
        None
    }
}

/// Whether `pattern` matches somewhere in `text`.
pub(crate) fn found(pattern: &str, text: &str) -> (hit: bool)
    ensures
        hit == finds(pattern@, text@),
{
    match search(pattern, text) {
        Ok(hit) => hit,
        Err(_) => false,
    }
}

/// Runs `pattern` on `text` and hands out the capture groups of its first
/// match.
pub(crate) fn captures(pattern: &str, text: &str) -> (groups: Option<Vec<Option<String>>>)
    ensures
        groups.deep_view() == captured(pattern@, text@),
{
    match capture(pattern, text) {
        Ok(groups) => groups,
        Err(_) => None,
    }
}

} // verus!
