//! A whole run in memory: the lines of a dump go in, the files that the run
//! leaves come out.

use crate::archive::{applied, performed, vacant, Archive, ArchiveView};
use crate::engine::{initial, stepped, Engine, EngineView};
use crate::path::top;
use crate::routing::{Action, ActionView};
use crate::types::{EssenceError, EssenceErrorView};
use vstd::prelude::*;

verus! {

/// How far a run has come: the engine's state, the files so far, and the
/// error that ended it, if one did.
pub struct RunView {
    pub engine: EngineView,
    pub archive: ArchiveView,
    pub failure: Option<EssenceErrorView>,
}

/// A run before its first line: the preamble file is open and empty.
pub open spec fn started(preamble_name: Seq<char>) -> RunView {
    RunView {
        engine: initial(),
        archive: applied(vacant(), ActionView::Open(seq![preamble_name])),
        failure: None,
    }
}

/// A run after the first `count` of `lines`. Each line makes the engine take
/// a step, whose actions are carried out on the files. The first step that
/// fails ends the run: its actions are still carried out, and no line after
/// it is looked at.
pub open spec fn ran(lines: Seq<Seq<char>>, preamble_name: Seq<char>, count: nat) -> RunView
    decreases count,
{
    if count == 0 {
        started(preamble_name)
    } else {
        let before = ran(lines, preamble_name, (count - 1) as nat);
        if before.failure is Some {
            before
        } else {
            let (engine, step) = stepped(before.engine, lines[count - 1]);
            RunView {
                engine,
                archive: performed(before.archive, step.actions),
                failure: step.failure,
            }
        }
    }
}

/// A run over all of `lines`.
pub open spec fn completed(lines: Seq<Seq<char>>, preamble_name: Seq<char>) -> RunView {
    ran(lines, preamble_name, lines.len())
}

/// A run that has failed stays as it is.
pub proof fn lemma_failure_ends_run(
    lines: Seq<Seq<char>>,
    preamble_name: Seq<char>,
    count: nat,
    later: nat,
)
    requires
        count <= later,
        ran(lines, preamble_name, count).failure is Some,
    ensures
        ran(lines, preamble_name, later) == ran(lines, preamble_name, count),
    decreases later,
{
    if count < later {
        lemma_failure_ends_run(lines, preamble_name, count, (later - 1) as nat);
    }
}

/// Actions never close the active output: where there is one before, there
/// is one after.
pub proof fn lemma_output_stays_open(archive: ArchiveView, actions: Seq<ActionView>)
    requires
        archive.active is Some,
    ensures
        performed(archive, actions).active is Some,
    decreases actions.len(),
{
    if actions.len() > 0 {
        lemma_output_stays_open(archive, actions.drop_last());
    }
}

/// A run has one active output at every moment, from the preamble file on:
/// no text that the engine asks to be written is lost.
pub proof fn lemma_run_has_output(lines: Seq<Seq<char>>, preamble_name: Seq<char>, count: nat)
    ensures
        ran(lines, preamble_name, count).archive.active is Some,
    decreases count,
{
    if count > 0 {
        let before = ran(lines, preamble_name, (count - 1) as nat);
        lemma_run_has_output(lines, preamble_name, (count - 1) as nat);
        if before.failure is None {
            let step = stepped(before.engine, lines[count - 1]).1;
            lemma_output_stays_open(before.archive, step.actions);
        }
    }
}

/// A run looks at nothing but the lines that it has taken in: two dumps
/// that agree in their first `count` lines are the same run that far.
pub proof fn lemma_run_reads_its_lines(
    first: Seq<Seq<char>>,
    second: Seq<Seq<char>>,
    preamble_name: Seq<char>,
    count: nat,
)
    requires
        count <= first.len(),
        count <= second.len(),
        forall|i: int| 0 <= i < count ==> first[i] == second[i],
    ensures
        ran(first, preamble_name, count) == ran(second, preamble_name, count),
    decreases count,
{
    if count > 0 {
        lemma_run_reads_its_lines(first, second, preamble_name, (count - 1) as nat);
    }
}

/// Splitting is repeatable: the files that a run leaves, and the error that
/// ends it, depend on nothing but the lines of the dump and the name of the
/// preamble file. Two runs on the same lines, each started without files,
/// leave the same files with the same text.
pub proof fn lemma_runs_agree(
    first: Seq<Seq<char>>,
    second: Seq<Seq<char>>,
    preamble_name: Seq<char>,
)
    requires
        first.len() == second.len(),
        forall|i: int| 0 <= i < first.len() ==> first[i] == second[i],
    ensures
        completed(first, preamble_name) == completed(second, preamble_name),
{
    lemma_run_reads_its_lines(first, second, preamble_name, first.len());
}

/// What a run in memory leaves behind.
pub struct Run {
    /// The files, as far as the run came.
    pub archive: Archive,
    /// Why the run ended before the last line, if it did.
    pub failure: Option<EssenceError>,
}

/// Splits a dump in memory. The preamble file is opened under
/// `preamble_name`; then the lines are taken in one by one, until the last
/// line or the first failure. Lines are counted in 32 bits, so a dump may
/// hold no more than `u32::MAX` of them.
pub fn split(lines: &Vec<String>, preamble_name: &str) -> (run: Run)
    requires
        lines.len() <= u32::MAX,
    ensures
        run.archive.wf(),
        run.archive@ == completed(lines.deep_view(), preamble_name@).archive,
        run.failure.deep_view() == completed(lines.deep_view(), preamble_name@).failure,
{
    let ghost all = lines.deep_view();
    let mut archive = Archive::new();
    archive.apply(&Action::Open(top(preamble_name)));
    let mut engine = Engine::new();
    let mut failure: Option<EssenceError> = None;
    let mut index: usize = 0;
    while index < lines.len() && failure.is_none()
        invariant
            index <= lines.len() <= u32::MAX,
            all == lines.deep_view(),
            archive.wf(),
            engine.line_number == index,
            ran(all, preamble_name@, index as nat) == (RunView {
                engine: engine@,
                archive: archive@,
                failure: failure.deep_view(),
            }),
        decreases lines.len() - index,
    {
        let step = engine.step(lines[index].as_str());
        archive.perform(&step.actions);
        failure = step.failure;
        index = index + 1;
    }
    proof {
        if failure is Some {
            lemma_failure_ends_run(all, preamble_name@, index as nat, all.len());
        }
    }
    Run { archive, failure }
}

} // verus!
