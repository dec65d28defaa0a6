//! The boundary to the `regex` crate.
//!
//! Nothing in this file is proved. Each function below makes one kind of call
//! into `regex` and states, over the names declared here, what that call
//! returns. The rest of the library reasons from these statements alone.

use regex::Regex;
use vstd::prelude::*;

verus! {

/// Makes `regex::Error` known to the verifier, as a value of which nothing
/// is said.
#[verifier::external_type_specification]
#[verifier::external_body]
pub struct ExPatternError(regex::Error);

/// Whether `Regex::new` accepts `pattern`.
pub uninterp spec fn pattern_accepted(pattern: Seq<char>) -> bool;

/// Whether the regular expression that `Regex::new` compiles from `pattern`
/// has a match anywhere in `text`, as `Regex::is_match` reports it.
pub uninterp spec fn pattern_found(pattern: Seq<char>, text: Seq<char>) -> bool;

/// What `Regex::captures` returns for the regular expression compiled from
/// `pattern`, searched in `text`: nothing where there is no match, else one
/// entry per capture group, the whole match first. An entry holds the text
/// that its group matched, or nothing where the group took no part.
pub uninterp spec fn pattern_groups(pattern: Seq<char>, text: Seq<char>) -> Option<
    Seq<Option<Seq<char>>>,
>;

/// Compiles `pattern` with `Regex::new` and asks `Regex::is_match` whether it
/// matches anywhere in `text`.
///
/// Trusted: that the call fails exactly on the patterns that `Regex::new`
/// refuses, and that the answer depends on `pattern` and `text` alone.
#[verifier::external_body]
pub(crate) fn search(pattern: &str, text: &str) -> (found: Result<bool, regex::Error>)
    ensures
        found is Ok <==> pattern_accepted(pattern@),
        found matches Ok(b) ==> b == pattern_found(pattern@, text@),
{
    let compiled = Regex::new(pattern)?;
    Ok(compiled.is_match(text))
}

/// Compiles `pattern` with `Regex::new`, runs `Regex::captures` on `text` and
/// copies out the text of every capture group, in the order of
/// `Captures::iter`.
///
/// Trusted: that the call fails exactly on the patterns that `Regex::new`
/// refuses, and that the groups depend on `pattern` and `text` alone.
#[verifier::external_body]
pub(crate) fn capture(pattern: &str, text: &str) -> (groups: Result<
    Option<Vec<Option<String>>>,
    regex::Error,
>)
    ensures
        groups is Ok <==> pattern_accepted(pattern@),
        groups matches Ok(g) ==> g.deep_view() == pattern_groups(pattern@, text@),
{
    let compiled = Regex::new(pattern)?;
    let captures = compiled.captures(text);
    Ok(captures.map(|c| c.iter().map(|m| m.map(|m| m.as_str().to_string())).collect()))
}

} // verus!
