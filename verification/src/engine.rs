//! The dispatch engine: the state that is carried from line to line, and the
//! step that one line makes it take.
//!
//! The engine reads no input and writes no output. Its caller hands it the
//! lines of the dump one by one, in order, and carries out the actions of
//! each step on the one output that is active at a time.

use crate::classify::{classification, identify_line};
use crate::grammar::{finds, MARKER_COMMENT, PREAMBLE_COMMENT};
use crate::marker::{marker_entity, parse_marker};
use crate::routing::{
    function_destination, function_file, needs_schema, requires_schema, route, routed, Action,
    ActionView,
};
use crate::types::{
    blank_entity, Entity, EntityType, EntityView, EssenceError, EssenceErrorView, Line, Mode,
};
use vstd::prelude::*;
use vstd::string::*;

verus! {

/// What the engine remembers between two lines.
#[derive(Debug)]
pub struct Engine {
    /// Whether the header section is still being read.
    pub mode: Mode,
    /// The classification of the line before.
    pub previous_line: Line,
    /// The last marker of a type that lives in a schema; meaningless until
    /// there was one.
    pub previous_marker: Entity,
    /// Whether the next blank line is swallowed.
    pub skip_next_empty_line: bool,
    /// Whether text is dropped until the next marker.
    pub skip_write: bool,
    /// How many lines were taken in.
    pub line_number: u32,
}

/// The mathematical value of an [`Engine`].
pub struct EngineView {
    pub mode: Mode,
    pub previous_line: Line,
    pub previous_marker: EntityView,
    pub skip_next_empty_line: bool,
    pub skip_write: bool,
    pub line_number: u32,
}

impl View for Engine {
    type V = EngineView;

    open spec fn view(&self) -> EngineView {
        EngineView {
            mode: self.mode,
            previous_line: self.previous_line,
            previous_marker: self.previous_marker@,
            skip_next_empty_line: self.skip_next_empty_line,
            skip_write: self.skip_write,
            line_number: self.line_number,
        }
    }
}

/// What one line asks of the caller.
#[derive(Debug)]
pub struct Step {
    /// What is to be done, in this order, whether or not the step failed.
    pub actions: Vec<Action>,
    /// Why the run ends here, if it does.
    pub failure: Option<EssenceError>,
}

/// The mathematical value of a [`Step`].
pub struct StepView {
    pub actions: Seq<ActionView>,
    pub failure: Option<EssenceErrorView>,
}

impl View for Step {
    type V = StepView;

    open spec fn view(&self) -> StepView {
        StepView { actions: self.actions.deep_view(), failure: self.failure.deep_view() }
    }
}

/// The state before the first line.
pub open spec fn initial() -> EngineView {
    EngineView {
        mode: Mode::Preamble,
        previous_line: Line::Empty,
        previous_marker: blank_entity(),
        skip_next_empty_line: false,
        skip_write: false,
        line_number: 0,
    }
}

/// The action that appends a line, with its line break, to the active
/// output.
pub open spec fn written(line: Seq<char>) -> ActionView {
    ActionView::Write(line + "\n"@)
}

/// The step that does nothing.
pub open spec fn idle() -> StepView {
    StepView { actions: Seq::empty(), failure: None }
}

/// The step that appends a line to the active output.
pub open spec fn copying(line: Seq<char>) -> StepView {
    StepView { actions: seq![written(line)], failure: None }
}

/// What a marker does to the engine. The text after it is written again,
/// whatever the marker before had asked for. A marker that cannot be routed
/// ends the run after the actions that its routing had come to. Any other
/// marker is routed, has the next blank line swallowed and the output
/// flushed, and is remembered if its type lives in a schema.
pub open spec fn dispatched(state: EngineView, marker: EntityView) -> (EngineView, StepView) {
    let file = if marker.entity_type == EntityType::Function && marker.schema is Some {
        function_file(marker, state.previous_marker)
    } else {
        Ok(None)
    };
    let routing = routed(marker, file);
    if routing.failure is Some {
        (
            EngineView { skip_write: false, ..state },
            StepView { actions: routing.actions, failure: routing.failure },
        )
    } else {
        (
            EngineView {
                previous_line: Line::MarkerComment,
                previous_marker: if needs_schema(marker.entity_type) {
                    marker
                } else {
                    state.previous_marker
                },
                skip_next_empty_line: true,
                skip_write: routing.suppress,
                ..state
            },
            StepView { actions: routing.actions.push(ActionView::Flush), failure: None },
        )
    }
}

/// What a line of the header section does to the engine: a line of content
/// is copied to the active output and every other line is dropped; a blank
/// line right after a line of content ends the section.
pub open spec fn advanced_in_preamble(state: EngineView, kind: Line, line: Seq<char>) -> (
    EngineView,
    StepView,
) {
    (
        EngineView {
            mode: if state.previous_line == Line::Content && kind == Line::Empty {
                Mode::Body
            } else {
                Mode::Preamble
            },
            previous_line: kind,
            ..state
        },
        if kind == Line::Content {
            copying(line)
        } else {
            idle()
        },
    )
}

/// What a line of the body does to the engine. A marker is parsed and
/// dispatched, and ends the run where it is garbled. A bare comment marker
/// is dropped. A blank line that is to be swallowed is dropped, once. Any
/// other line is copied to the active output, unless text is being dropped.
pub open spec fn advanced_in_body(state: EngineView, kind: Line, line: Seq<char>) -> (
    EngineView,
    StepView,
) {
    if kind == Line::MarkerComment {
        match marker_entity(line) {
            Some(marker) => dispatched(state, marker),
            None => (
                EngineView { skip_write: false, ..state },
                StepView {
                    actions: Seq::empty(),
                    failure: Some(EssenceErrorView::GarbledMarkerError(state.line_number)),
                },
            ),
        }
    } else if kind == Line::EmptyComment {
        (EngineView { previous_line: kind, ..state }, idle())
    } else if kind == Line::Empty && state.skip_next_empty_line {
        (EngineView { previous_line: kind, skip_next_empty_line: false, ..state }, idle())
    } else {
        (
            EngineView { previous_line: kind, ..state },
            if state.skip_write {
                idle()
            } else {
                copying(line)
            },
        )
    }
}

/// What a line that was classified as `kind` does to the engine, once it has
/// been counted.
pub open spec fn advanced(state: EngineView, kind: Line, line: Seq<char>) -> (
    EngineView,
    StepView,
)
    recommends
        state.line_number < u32::MAX,
{
    let counted = EngineView { line_number: (state.line_number + 1) as u32, ..state };
    match counted.mode {
        Mode::Preamble => advanced_in_preamble(counted, kind, line),
        Mode::Body => advanced_in_body(counted, kind, line),
    }
}

/// What a line does to the engine.
pub open spec fn stepped(state: EngineView, line: Seq<char>) -> (EngineView, StepView)
    recommends
        state.line_number < u32::MAX,
{
    advanced(
        state,
        classification(
            finds(MARKER_COMMENT@, line),
            finds(PREAMBLE_COMMENT@, line),
            line,
        ),
        line,
    )
}

/// The header section ends once and for good. A step leaves it exactly on a
/// blank line that follows a line of content, and no step returns to it.
pub proof fn lemma_mode_moves_forward(state: EngineView, kind: Line, line: Seq<char>)
    ensures
        state.mode == Mode::Body ==> advanced(state, kind, line).0.mode == Mode::Body,
        state.mode == Mode::Preamble ==> (advanced(state, kind, line).0.mode == Mode::Body <==> (
        state.previous_line == Line::Content && kind == Line::Empty)),
{
}

/// A bare comment marker in the body is dropped: nothing is written, and
/// nothing is remembered of it but that it was the line before. The blank
/// line that is to be swallowed is still waited for.
pub proof fn lemma_bare_comment_is_dropped(state: EngineView, line: Seq<char>)
    requires
        state.mode == Mode::Body,
        state.line_number < u32::MAX,
    ensures
        advanced(state, Line::EmptyComment, line) == (
            EngineView {
                previous_line: Line::EmptyComment,
                line_number: (state.line_number + 1) as u32,
                ..state
            },
            idle(),
        ),
{
}

/// Every line is counted, whatever it holds and whether or not its step
/// fails.
pub proof fn lemma_lines_are_counted(state: EngineView, kind: Line, line: Seq<char>)
    requires
        state.line_number < u32::MAX,
    ensures
        advanced(state, kind, line).0.line_number == state.line_number + 1,
{
}

/// The step without actions, ended or not.
fn bare(failure: Option<EssenceError>) -> (step: Step)
    ensures
        step@ == (StepView { actions: Seq::empty(), failure: failure.deep_view() }),
{
    let actions: Vec<Action> = Vec::new();
    assert(actions.deep_view() =~= Seq::<ActionView>::empty());
    Step { actions, failure }
}

/// The step that appends `line` and a line break to the active output.
fn copy(line: &str) -> (step: Step)
    ensures
        step@ == copying(line@),
{
    let mut text = String::from_str(line);
    text.append("\n");
    let mut actions: Vec<Action> = Vec::new();
    actions.push(Action::Write(text));
    assert(actions.deep_view() =~= seq![written(line@)]);
    Step { actions, failure: None }
}

impl Engine {
    /// The engine before the first line: in the header section, with nothing
    /// remembered.
    pub fn new() -> (engine: Engine)
        ensures
            engine@ == initial(),
    {
        Engine {
            mode: Mode::Preamble,
            previous_line: Line::Empty,
            previous_marker: Entity::default(),
            skip_next_empty_line: false,
            skip_write: false,
            line_number: 0,
        }
    }

    /// Takes in a marker that was parsed from the current line.
    pub fn dispatch(&mut self, marker: Entity) -> (step: Step)
        ensures
            (final(self)@, step@) == dispatched(old(self)@, marker@),
    {
        self.skip_write = false;
        let file = if marker.entity_type == EntityType::Function && marker.schema.is_some() {
            function_destination(&marker, &self.previous_marker)
        } else {
            Ok(None)
        };
        let routing = route(&marker, file);
        match routing.failure {
            Some(error) => Step { actions: routing.actions, failure: Some(error) },
            None => {
                let ghost routed_actions = routing.actions.deep_view();
                let mut actions = routing.actions;
                actions.push(Action::Flush);
                assert(actions.deep_view() =~= routed_actions.push(ActionView::Flush));
                self.skip_write = routing.suppress;
                self.skip_next_empty_line = true;
                self.previous_line = Line::MarkerComment;
                if requires_schema(marker.entity_type) {
                    self.previous_marker = marker;
                }
                Step { actions, failure: None }
            },
        }
    }

    /// Takes in the next line of the dump, given its classification. Lines
    /// are counted in 32 bits: the engine takes no line once `line_number`
    /// has reached `u32::MAX`.
    pub fn advance(&mut self, kind: Line, line: &str) -> (step: Step)
        requires
            old(self).line_number < u32::MAX,
        ensures
            (final(self)@, step@) == advanced(old(self)@, kind, line@),
    {
        self.line_number = self.line_number + 1;
        match self.mode {
            Mode::Preamble => {
                if self.previous_line == Line::Content && kind == Line::Empty {
                    self.mode = Mode::Body;
                }
                self.previous_line = kind;
                if kind == Line::Content {
                    copy(line)
                } else {
                    bare(None)
                }
            },
            Mode::Body => {
                if kind == Line::MarkerComment {
                    match parse_marker(line, self.line_number) {
                        Ok(marker) => self.dispatch(marker),
                        Err(error) => {
                            self.skip_write = false;
                            bare(Some(error))
                        },
                    }
                } else if kind == Line::EmptyComment {
                    self.previous_line = kind;
                    bare(None)
                } else if kind == Line::Empty && self.skip_next_empty_line {
                    self.previous_line = kind;
                    self.skip_next_empty_line = false;
                    bare(None)
                } else {
                    self.previous_line = kind;
                    if self.skip_write {
                        bare(None)
                    } else {
                        copy(line)
                    }
                }
            },
        }
    }

    /// Takes in the next line of the dump. Lines are counted in 32 bits: the
    /// engine takes no line once `line_number` has reached `u32::MAX`.
    pub fn step(&mut self, line: &str) -> (step: Step)
        requires
            old(self).line_number < u32::MAX,
        ensures
            (final(self)@, step@) == stepped(old(self)@, line@),
    {
        let kind = identify_line(line);
        self.advance(kind, line)
    }
}

} // verus!
