//! Paths below the base directory, written as the list of their components.

use crate::text::same_text;
use vstd::prelude::*;
use vstd::string::*;

verus! {

/// A copy of `path`.
pub(crate) fn copied(path: &Vec<String>) -> (copy: Vec<String>)
    ensures
        copy.deep_view() == path.deep_view(),
{
    let mut copy: Vec<String> = Vec::new();
    let mut index: usize = 0;
    while index < path.len()
        invariant
            index <= path.len(),
            copy.len() == index,
            forall|i: int| 0 <= i < index ==> copy[i]@ == path[i]@,
        decreases path.len() - index,
    {
        copy.push(path[index].clone());
        index = index + 1;
    }
    assert(copy.deep_view() =~= path.deep_view());
    copy
}

/// The path one step below `path`.
pub(crate) fn below(path: &Vec<String>, component: &str) -> (longer: Vec<String>)
    ensures
        longer.deep_view() == path.deep_view().push(component@),
{
    let mut longer = copied(path);
    let ghost before = longer.deep_view();
    longer.push(String::from_str(component));
    assert(longer.deep_view() =~= before.push(component@));
    longer
}

/// The path of a single component.
pub(crate) fn top(component: &str) -> (path: Vec<String>)
    ensures
        path.deep_view() == seq![component@],
{
    let mut path: Vec<String> = Vec::new();
    path.push(String::from_str(component));
    assert(path.deep_view() =~= seq![component@]);
    path
}

/// Whether two paths have the same components.
pub(crate) fn same_path(left: &Vec<String>, right: &Vec<String>) -> (same: bool)
    ensures
        same == (left.deep_view() == right.deep_view()),
{
    if left.len() != right.len() {
        assert(left.deep_view().len() != right.deep_view().len());
        return false;
    }
    let mut index: usize = 0;
    while index < left.len()
        invariant
            index <= left.len(),
            left.len() == right.len(),
            forall|i: int| 0 <= i < index ==> left[i]@ == right[i]@,
        decreases left.len() - index,
    {
        if !same_text(left[index].as_str(), right[index].as_str()) {
            assert(left.deep_view()[index as int] != right.deep_view()[index as int]);
            return false;
        }
        index = index + 1;
    }
    assert(left.deep_view() =~= right.deep_view());
    true
}

} // verus!
