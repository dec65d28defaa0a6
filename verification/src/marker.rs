//! Marker comments: from the text of a line to an entity descriptor, and the
//! comparison of function names that groups overloads.

use crate::catalog::{entity_type_from_keyword, keyword, lemma_named_type, named_type};
use crate::grammar::{captured, captures, FUNCTION_SIGNATURE, MARKER_COMMENT};
use crate::text::same_text;
use crate::types::{Entity, EntityView, EssenceError, EssenceErrorView};
use vstd::prelude::*;
use vstd::string::*;

verus! {

/// The text of the capture group at `index`, where there is such a group and
/// it took part in the match.
pub open spec fn group_text(groups: Seq<Option<Seq<char>>>, index: int) -> Option<Seq<char>> {
    if 0 <= index < groups.len() {
        groups[index]
    } else {
        None
    }
}

/// The descriptor that the capture groups of a marker comment stand for:
/// group 1 is the name, group 2 the type's keyword, group 3 the schema (or
/// `-` for none) and group 4 the owner. There is none where a group is
/// missing or the keyword is not in the catalog.
pub open spec fn described_entity(groups: Seq<Option<Seq<char>>>) -> Option<EntityView> {
    match (
        group_text(groups, 1),
        group_text(groups, 2),
        group_text(groups, 3),
        group_text(groups, 4),
    ) {
        (Some(name), Some(word), Some(schema), Some(owner)) => match named_type(word) {
            Some(entity_type) => Some(
                EntityView {
                    name,
                    entity_type,
                    schema: if schema == "-"@ {
                        None
                    } else {
                        Some(schema)
                    },
                    owner,
                },
            ),
            None => None,
        },
        _ => None,
    }
}

/// The descriptor that a line holds, if the line is a well-formed marker
/// comment.
pub open spec fn marker_entity(line: Seq<char>) -> Option<EntityView> {
    match captured(MARKER_COMMENT@, line) {
        Some(groups) => described_entity(groups),
        None => None,
    }
}

/// The part of a function's signature that stands before its argument list,
/// if the signature has an argument list.
pub open spec fn bare_name(signature: Seq<char>) -> Option<Seq<char>> {
    match captured(FUNCTION_SIGNATURE@, signature) {
        Some(groups) => group_text(groups, 1),
        None => None,
    }
}

/// Whether two function descriptors name overloads of one function: they
/// stand in the same schema (or both in none) and their bare names agree.
/// Where the schemas agree, a name without an argument list is an error, that
/// of `first` before that of `second`.
pub open spec fn overloads(first: EntityView, second: EntityView) -> Result<
    bool,
    EssenceErrorView,
> {
    if first.schema != second.schema {
        Ok(false)
    } else {
        match bare_name(first.name) {
            None => Err(EssenceErrorView::GarbledFunctionNameError(first.name)),
            Some(first_name) => match bare_name(second.name) {
                None => Err(EssenceErrorView::GarbledFunctionNameError(second.name)),
                Some(second_name) => Ok(first_name == second_name),
            },
        }
    }
}

/// The view of a result that holds text or an error.
pub open spec fn text_result(result: Result<String, EssenceError>) -> Result<
    Seq<char>,
    EssenceErrorView,
> {
    match result {
        Ok(text) => Ok(text@),
        Err(error) => Err(error@),
    }
}

/// The view of a result that holds a descriptor or an error.
pub open spec fn entity_result(result: Result<Entity, EssenceError>) -> Result<
    EntityView,
    EssenceErrorView,
> {
    match result {
        Ok(entity) => Ok(entity@),
        Err(error) => Err(error@),
    }
}

/// The view of a result that holds a plain value or an error.
pub open spec fn plain_result<T>(result: Result<T, EssenceError>) -> Result<T, EssenceErrorView> {
    match result {
        Ok(value) => Ok(value),
        Err(error) => Err(error@),
    }
}

/// The text of the capture group at `index`.
fn group(groups: &Vec<Option<String>>, index: usize) -> (text: Option<&String>)
    ensures
        text.deep_view() == group_text(groups.deep_view(), index as int),
{
    if index < groups.len() {
        groups[index].as_ref()
    } else {
        None
    }
}

/// Builds the descriptor that the capture groups of a marker comment stand
/// for.
pub fn entity_from_groups(groups: &Vec<Option<String>>) -> (entity: Option<Entity>)
    ensures
        entity.deep_view() == described_entity(groups.deep_view()),
{
    let name = match group(groups, 1) {
        Some(text) => text,
        None => return None,
    };
    let word = match group(groups, 2) {
        Some(text) => text,
        None => return None,
    };
    let schema = match group(groups, 3) {
        Some(text) => text,
        None => return None,
    };
    let owner = match group(groups, 4) {
        Some(text) => text,
        None => return None,
    };
    let entity_type = match entity_type_from_keyword(word.as_str()) {
        Some(entity_type) => entity_type,
        None => return None,
    };
    let schema = if same_text(schema.as_str(), "-") {
        None
    } else {
        Some(schema.clone())
    };
    Some(Entity { name: name.clone(), entity_type, schema, owner: owner.clone() })
}

/// Reads the descriptor out of a marker comment. There is none where the line
/// does not have the shape of a marker or names a type that the catalog does
/// not hold.
pub fn identify_marker(marker: &str) -> (entity: Option<Entity>)
    ensures
        entity.deep_view() == marker_entity(marker@),
{
    match captures(MARKER_COMMENT, marker) {
        Some(groups) => entity_from_groups(&groups),
        None => None,
    }
}

/// Reads the descriptor out of the marker comment on line `line_number`, or
/// reports that line as garbled.
pub fn parse_marker(marker: &str, line_number: u32) -> (entity: Result<Entity, EssenceError>)
    ensures
        entity_result(entity) == match marker_entity(marker@) {
            Some(described) => Ok(described),
            None => Err(EssenceErrorView::GarbledMarkerError(line_number)),
        },
{
    match identify_marker(marker) {
        Some(entity) => Ok(entity),
        None => Err(EssenceError::GarbledMarkerError(line_number)),
    }
}

/// Picks the bare name out of the capture groups of a signature, or reports
/// `signature` as garbled where there is no match or no first group.
pub fn function_name_from_groups(
    groups: &Option<Vec<Option<String>>>,
    signature: &str,
) -> (name: Result<String, EssenceError>)
    ensures
        text_result(name) == match groups.deep_view() {
            Some(found) => match group_text(found, 1) {
                Some(text) => Ok(text),
                None => Err(EssenceErrorView::GarbledFunctionNameError(signature@)),
            },
            None => Err(EssenceErrorView::GarbledFunctionNameError(signature@)),
        },
{
    match groups {
        Some(found) => match group(found, 1) {
            Some(text) => Ok(text.clone()),
            None => Err(EssenceError::GarbledFunctionNameError(String::from_str(signature))),
        },
        None => Err(EssenceError::GarbledFunctionNameError(String::from_str(signature))),
    }
}

/// The name of a function without its argument list: what stands before the
/// first parenthesised group of the descriptor's name.
pub fn extract_function_name(function: &Entity) -> (name: Result<String, EssenceError>)
    ensures
        text_result(name) == match bare_name(function@.name) {
            Some(text) => Ok(text),
            None => Err(EssenceErrorView::GarbledFunctionNameError(function@.name)),
        },
{
    let groups = captures(FUNCTION_SIGNATURE, function.name.as_str());
    function_name_from_groups(&groups, function.name.as_str())
}

/// Whether two optional schema names are the same.
fn same_schema(first: &Option<String>, second: &Option<String>) -> (same: bool)
    ensures
        same == (first.deep_view() == second.deep_view()),
{
    match (first, second) {
        (Some(left), Some(right)) => same_text(left.as_str(), right.as_str()),
        (None, None) => true,
        _ => false,
    }
}

/// Whether two function descriptors name overloads of one function. The
/// argument lists play no part.
pub fn is_polymorph(f1: &Entity, f2: &Entity) -> (same: Result<bool, EssenceError>)
    ensures
        plain_result(same) == overloads(f1@, f2@),
{
    if !same_schema(&f1.schema, &f2.schema) {
        Ok(false)
    } else {
        let first = match extract_function_name(f1) {
            Ok(name) => name,
            Err(error) => return Err(error),
        };
        let second = match extract_function_name(f2) {
            Ok(name) => name,
            Err(error) => return Err(error),
        };
        Ok(same_text(first.as_str(), second.as_str()))
    }
}

/// A descriptor says what its marker says. Its type is the one of the
/// catalog that the marker's keyword names, and a keyword that names none
/// gives no descriptor. Its schema is absent exactly where the marker gives
/// `-` in its place.
pub proof fn lemma_described_entity(groups: Seq<Option<Seq<char>>>)
    ensures
        described_entity(groups) matches Some(entity) ==> {
            &&& group_text(groups, 1) == Some(entity.name)
            &&& group_text(groups, 2) == Some(keyword(entity.entity_type))
            &&& group_text(groups, 4) == Some(entity.owner)
            &&& entity.schema is None <==> group_text(groups, 3) == Some("-"@)
            &&& entity.schema matches Some(schema) ==> group_text(groups, 3) == Some(schema)
        },
        group_text(groups, 2) matches Some(word) && named_type(word) is None ==> described_entity(
            groups,
        ) is None,
{
    if let Some(word) = group_text(groups, 2) {
        lemma_named_type(word);
    }
}

/// Overloads are grouped by schema and bare name alone: two descriptors in
/// one schema whose signatures have the same bare name are overloads of each
/// other whatever their argument lists hold, and descriptors in different
/// schemas never are.
pub proof fn lemma_overloads(first: EntityView, second: EntityView)
    ensures
        first.schema != second.schema ==> overloads(first, second) == Ok::<
            bool,
            EssenceErrorView,
        >(false),
        first.schema == second.schema && bare_name(first.name) is Some && bare_name(first.name)
            == bare_name(second.name) ==> overloads(first, second) == Ok::<bool, EssenceErrorView>(
            true,
        ),
        overloads(first, second) == Ok::<bool, EssenceErrorView>(true) ==> overloads(second, first)
            == Ok::<bool, EssenceErrorView>(true),
{
}

} // verus!
