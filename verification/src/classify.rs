//! Line classification.

use crate::grammar::{finds, found, MARKER_COMMENT, PREAMBLE_COMMENT};
use crate::text::same_text;
use crate::types::Line;
use vstd::prelude::*;

verus! {

/// The classification of a line, given what the two patterns found in it.
pub open spec fn classification(marker: bool, comment: bool, line: Seq<char>) -> Line {
    if marker {
        Line::MarkerComment
    } else if comment {
        Line::PreambleComment
    } else if line == "--"@ {
        Line::EmptyComment
    } else if line.len() == 0 {
        Line::Empty
    } else {
        Line::Content
    }
}

/// Classifies `line` from the answers of the two patterns: `marker` says
/// whether the marker pattern matched, `comment` whether the comment pattern
/// did. The marker pattern is asked first, so a marker is never taken for an
/// ordinary comment.
pub fn classify_line(marker: bool, comment: bool, line: &str) -> (kind: Line)
    ensures
        kind == classification(marker, comment, line@),
        marker ==> kind == Line::MarkerComment,
{
    if marker {
        Line::MarkerComment
    } else if comment {
        Line::PreambleComment
    } else if same_text(line, "--") {
        Line::EmptyComment
    } else if line.is_empty() {
        Line::Empty
    } else {
        Line::Content
    }
}

/// Classifies one line of a dump.
pub fn identify_line(line: &str) -> (kind: Line)
    ensures
        kind == classification(
            finds(MARKER_COMMENT@, line@),
            finds(PREAMBLE_COMMENT@, line@),
            line@,
        ),
        finds(MARKER_COMMENT@, line@) ==> kind == Line::MarkerComment,
{
    if found(MARKER_COMMENT, line) {
        Line::MarkerComment
    } else {
        classify_line(false, found(PREAMBLE_COMMENT, line), line)
    }
}

} // verus!
