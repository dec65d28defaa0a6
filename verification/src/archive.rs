//! An output that lives in memory: the files that a run would leave below
//! the base directory, kept as text.
//!
//! An [`Archive`] carries out the actions of the engine on itself. It is the
//! model of what the actions mean, and it lets a whole dump be split without
//! a file system.

use crate::path::{copied, same_path};
use crate::routing::{Action, ActionView};
use vstd::prelude::*;
use vstd::string::*;

verus! {

/// The mathematical value of an [`Archive`]: the text of every file, by
/// path; the paths in the order in which the files were first opened; and
/// the path of the file that is the active output.
pub struct ArchiveView {
    pub files: Map<Seq<Seq<char>>, Seq<char>>,
    pub order: Seq<Seq<Seq<char>>>,
    pub active: Option<Seq<Seq<char>>>,
}

/// The archive without files.
pub open spec fn vacant() -> ArchiveView {
    ArchiveView { files: Map::empty(), order: Seq::empty(), active: None }
}

/// What one action does to an archive. Opening a file leaves it empty and
/// makes it the active output; writing appends to the active output, and is
/// lost where there is none. Directories and flushing leave no trace.
pub open spec fn applied(archive: ArchiveView, action: ActionView) -> ArchiveView {
    match action {
        ActionView::Open(path) => ArchiveView {
            files: archive.files.insert(path, Seq::empty()),
            order: if archive.files.contains_key(path) {
                archive.order
            } else {
                archive.order.push(path)
            },
            active: Some(path),
        },
        ActionView::Write(text) => match archive.active {
            Some(path) => ArchiveView {
                files: archive.files.insert(path, archive.files[path] + text),
                ..archive
            },
            None => archive,
        },
        _ => archive,
    }
}

/// What a list of actions does to an archive, carried out from first to
/// last.
pub open spec fn performed(archive: ArchiveView, actions: Seq<ActionView>) -> ArchiveView
    decreases actions.len(),
{
    if actions.len() == 0 {
        archive
    } else {
        applied(performed(archive, actions.drop_last()), actions.last())
    }
}

/// One file of an archive.
struct Stored {
    path: Vec<String>,
    content: String,
}

/// Files in memory, and which of them is the active output.
pub struct Archive {
    stored: Vec<Stored>,
    active: Option<usize>,
}

impl View for Archive {
    type V = ArchiveView;

    closed spec fn view(&self) -> ArchiveView {
        ArchiveView {
            files: Map::new(
                |path: Seq<Seq<char>>| exists|i: int| self.keeps(path, i),
                |path: Seq<Seq<char>>| self.stored[choose|i: int| self.keeps(path, i)].content@,
            ),
            order: Seq::new(self.stored.len() as nat, |i: int| self.stored[i].path.deep_view()),
            active: match self.active {
                Some(i) => Some(self.stored[i as int].path.deep_view()),
                None => None,
            },
        }
    }
}

impl Archive {
    /// Whether the file at `path` is kept at position `i`.
    closed spec fn keeps(&self, path: Seq<Seq<char>>, i: int) -> bool {
        0 <= i < self.stored.len() && self.stored[i].path.deep_view() == path
    }

    /// Whether no path is kept twice.
    closed spec fn distinct(&self) -> bool {
        forall|i: int, j: int|
            0 <= i < j < self.stored.len() ==> self.stored[i].path.deep_view()
                != self.stored[j].path.deep_view()
    }

    /// Whether the archive is in order: no path is kept twice, and the active
    /// output is one of the files.
    pub closed spec fn wf(&self) -> bool {
        &&& self.distinct()
        &&& self.active matches Some(i) ==> i < self.stored.len()
    }

    /// The file that is kept at position `i` is the one that the view holds
    /// under its path.
    proof fn lemma_kept(&self, i: int)
        requires
            self.distinct(),
            0 <= i < self.stored.len(),
        ensures
            self@.files.contains_key(self.stored[i].path.deep_view()),
            self@.files[self.stored[i].path.deep_view()] == self.stored[i].content@,
    {
        let path = self.stored[i].path.deep_view();
        assert(self.keeps(path, i));
        let chosen = choose|k: int| self.keeps(path, k);
        assert(self.keeps(path, chosen));
        assert(chosen == i);
    }

    /// A path that no position keeps is not in the view.
    proof fn lemma_missing(&self, path: Seq<Seq<char>>)
        requires
            forall|i: int| 0 <= i < self.stored.len() ==> self.stored[i].path.deep_view() != path,
        ensures
            !self@.files.contains_key(path),
    {
        assert forall|i: int| !self.keeps(path, i) by {}
    }

    /// What rewriting one file does to the view: where `after` keeps the
    /// paths of `self`, and its texts but for the one at `position`, the view
    /// of `after` is that of `self` with that text replaced.
    proof fn lemma_rewritten(&self, after: &Archive, position: int)
        requires
            self.wf(),
            0 <= position < self.stored.len(),
            after.stored.len() == self.stored.len(),
            forall|i: int|
                0 <= i < self.stored.len() ==> after.stored[i].path.deep_view()
                    == self.stored[i].path.deep_view(),
            forall|i: int|
                0 <= i < self.stored.len() && i != position ==> after.stored[i].content@
                    == self.stored[i].content@,
        ensures
            self@.files.contains_key(self.stored[position].path.deep_view()),
            self@.files[self.stored[position].path.deep_view()] == self.stored[position].content@,
            after@.files == self@.files.insert(
                self.stored[position].path.deep_view(),
                after.stored[position].content@,
            ),
            after@.order == self@.order,
    {
        let target = self.stored[position].path.deep_view();
        let rewritten = self@.files.insert(target, after.stored[position].content@);
        self.lemma_kept(position);
        assert(after.distinct()) by {
            assert forall|i: int, j: int| 0 <= i < j < after.stored.len() implies after.stored[i]
                .path.deep_view() != after.stored[j].path.deep_view() by {
                assert(self.stored[i].path.deep_view() != self.stored[j].path.deep_view());
            }
        }
        assert forall|other: Seq<Seq<char>>|
            after@.files.contains_key(other) <==> rewritten.contains_key(other) by {
            if after@.files.contains_key(other) {
                let k = choose|k: int| after.keeps(other, k);
                assert(self.keeps(other, k));
            }
            if self@.files.contains_key(other) {
                let k = choose|k: int| self.keeps(other, k);
                assert(after.keeps(other, k));
            }
        }
        assert forall|other: Seq<Seq<char>>|
            after@.files.contains_key(other) implies after@.files[other] == rewritten[other] by {
            let k = choose|k: int| after.keeps(other, k);
            after.lemma_kept(k);
            self.lemma_kept(k);
        }
        assert(after@.files =~= rewritten);
        assert(after@.order =~= self@.order);
    }

    /// What a new file does to the view: where `after` keeps the files of
    /// `self` and, behind them, one more at a path that `self` does not keep,
    /// the view of `after` is that of `self` with that file added.
    proof fn lemma_added(&self, after: &Archive)
        requires
            self.wf(),
            after.stored.len() == self.stored.len() + 1,
            forall|i: int| 0 <= i < self.stored.len() ==> after.stored[i] == self.stored[i],
            forall|i: int|
                0 <= i < self.stored.len() ==> self.stored[i].path.deep_view()
                    != after.stored[self.stored.len() as int].path.deep_view(),
        ensures
            !self@.files.contains_key(after.stored[self.stored.len() as int].path.deep_view()),
            after@.files == self@.files.insert(
                after.stored[self.stored.len() as int].path.deep_view(),
                after.stored[self.stored.len() as int].content@,
            ),
            after@.order == self@.order.push(
                after.stored[self.stored.len() as int].path.deep_view(),
            ),
    {
        let last = self.stored.len() as int;
        let target = after.stored[last].path.deep_view();
        let added = self@.files.insert(target, after.stored[last].content@);
        self.lemma_missing(target);
        assert(after.distinct());
        assert forall|other: Seq<Seq<char>>|
            after@.files.contains_key(other) <==> added.contains_key(other) by {
            if after@.files.contains_key(other) {
                let k = choose|k: int| after.keeps(other, k);
                if k < last {
                    assert(self.keeps(other, k));
                }
            }
            if self@.files.contains_key(other) {
                let k = choose|k: int| self.keeps(other, k);
                assert(after.keeps(other, k));
            }
            if other == target {
                assert(after.keeps(other, last));
            }
        }
        assert forall|other: Seq<Seq<char>>|
            after@.files.contains_key(other) implies after@.files[other] == added[other] by {
            let k = choose|k: int| after.keeps(other, k);
            after.lemma_kept(k);
            if k < last {
                self.lemma_kept(k);
            }
        }
        assert(after@.files =~= added);
        assert(after@.order =~= self@.order.push(target));
    }

    /// The archive without files.
    pub fn new() -> (archive: Archive)
        ensures
            archive.wf(),
            archive@ == vacant(),
    {
        let archive = Archive { stored: Vec::new(), active: None };
        assert(archive@.files =~= Map::<Seq<Seq<char>>, Seq<char>>::empty()) by {
            assert forall|path: Seq<Seq<char>>| !archive@.files.contains_key(path) by {
                archive.lemma_missing(path);
            }
        }
        assert(archive@.order =~= Seq::<Seq<Seq<char>>>::empty());
        archive
    }

    /// The position at which the file at `path` is kept.
    fn find(&self, path: &Vec<String>) -> (position: Option<usize>)
        requires
            self.wf(),
        ensures
            match position {
                Some(i) => self.keeps(path.deep_view(), i as int),
                None => forall|i: int|
                    0 <= i < self.stored.len() ==> self.stored[i].path.deep_view()
                        != path.deep_view(),
            },
    {
        let mut index: usize = 0;
        while index < self.stored.len()
            invariant
                index <= self.stored.len(),
                forall|i: int|
                    0 <= i < index ==> self.stored[i].path.deep_view() != path.deep_view(),
            decreases self.stored.len() - index,
        {
            if same_path(&self.stored[index].path, path) {
                return Some(index);
            }
            index = index + 1;
        }
        None
    }

    /// Creates the file at `path`, or empties it, and makes it the active
    /// output.
    fn open(&mut self, path: &Vec<String>)
        requires
            old(self).wf(),
        ensures
            final(self).wf(),
            final(self)@ == applied(old(self)@, ActionView::Open(path.deep_view())),
    {
        let ghost before = *self;
        match self.find(path) {
            Some(position) => {
                self.stored[position].content = String::new();
                self.active = Some(position);
                proof {
                    before.lemma_rewritten(self, position as int);
                }
            },
            None => {
                self.stored.push(Stored { path: copied(path), content: String::new() });
                self.active = Some(self.stored.len() - 1);
                proof {
                    before.lemma_added(self);
                }
            },
        }
    }

    /// Appends `text` to the active output.
    fn write(&mut self, text: &str)
        requires
            old(self).wf(),
        ensures
            final(self).wf(),
            final(self)@ == applied(old(self)@, ActionView::Write(text@)),
    {
        let ghost before = *self;
        match self.active {
            Some(position) => {
                self.stored[position].content.append(text);
                proof {
                    before.lemma_rewritten(self, position as int);
                }
            },
            None => {},
        }
    }

    /// Carries out one action.
    pub fn apply(&mut self, action: &Action)
        requires
            old(self).wf(),
        ensures
            final(self).wf(),
            final(self)@ == applied(old(self)@, action@),
    {
        match action {
            Action::Open(path) => self.open(path),
            Action::Write(text) => self.write(text.as_str()),
            Action::EnsureDirectory(_) => {},
            Action::Flush => {},
        }
    }

    /// Carries out a list of actions, from first to last.
    pub fn perform(&mut self, actions: &Vec<Action>)
        requires
            old(self).wf(),
        ensures
            final(self).wf(),
            final(self)@ == performed(old(self)@, actions.deep_view()),
    {
        let ghost all = actions.deep_view();
        let mut index: usize = 0;
        while index < actions.len()
            invariant
                index <= actions.len(),
                all == actions.deep_view(),
                self.wf(),
                self@ == performed(old(self)@, all.take(index as int)),
            decreases actions.len() - index,
        {
            self.apply(&actions[index]);
            proof {
                let longer = all.take(index + 1);
                assert(longer.drop_last() =~= all.take(index as int));
                assert(longer.last() == actions[index as int]@);
            }
            index = index + 1;
        }
        assert(all.take(index as int) =~= all);
    }

    /// The text of the file at `path`, if the archive holds such a file.
    pub fn content(&self, path: &Vec<String>) -> (text: Option<String>)
        requires
            self.wf(),
        ensures
            match text {
                Some(found) => self@.files.contains_key(path.deep_view()) && found@
                    == self@.files[path.deep_view()],
                None => !self@.files.contains_key(path.deep_view()),
            },
    {
        match self.find(path) {
            Some(position) => {
                proof {
                    self.lemma_kept(position as int);
                }
                Some(self.stored[position].content.clone())
            },
            None => {
                proof {
                    self.lemma_missing(path.deep_view());
                }
                None
            },
        }
    }

    /// The paths of the files, each once, in the order in which the files
    /// were first opened.
    pub fn paths(&self) -> (paths: Vec<Vec<String>>)
        requires
            self.wf(),
        ensures
            paths.deep_view() == self@.order,
    {
        let mut paths: Vec<Vec<String>> = Vec::new();
        let mut index: usize = 0;
        while index < self.stored.len()
            invariant
                index <= self.stored.len(),
                paths.len() == index,
                forall|i: int|
                    0 <= i < index ==> paths[i].deep_view() == self.stored[i].path.deep_view(),
            decreases self.stored.len() - index,
        {
            paths.push(copied(&self.stored[index].path));
            index = index + 1;
        }
        assert(paths.deep_view() =~= self@.order);
        paths
    }

    /// The order lists every file once and nothing else, and the active
    /// output is one of the files.
    pub proof fn lemma_order_lists_the_files(&self)
        requires
            self.wf(),
        ensures
            self@.order.no_duplicates(),
            forall|path: Seq<Seq<char>>|
                self@.files.contains_key(path) <==> self@.order.contains(path),
            self@.active matches Some(path) ==> self@.files.contains_key(path),
    {
        if let Some(position) = self.active {
            self.lemma_kept(position as int);
        }
        let listed = self@.order;
        assert forall|path: Seq<Seq<char>>|
            self@.files.contains_key(path) <==> listed.contains(path) by {
            if self@.files.contains_key(path) {
                let k = choose|k: int| self.keeps(path, k);
                assert(listed[k] == path);
            }
            if listed.contains(path) {
                let k = choose|k: int| 0 <= k < listed.len() && listed[k] == path;
                assert(self.keeps(path, k));
            }
        }
    }
}

} // verus!
