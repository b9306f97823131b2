//! What passes between the parts of the engine and between the engine and its
//! host: the work a frame still has to do, the effect of one step, and the
//! actions and events of the conversation with the host.

use vstd::prelude::*;
use std::rc::Rc;
use crate::ast;
use crate::data::{Block, ClosureModel, Data, DataModel, Kind, NumberOp, list_view};
use crate::error::{Error, ErrorModel};
use crate::run_tree;
use crate::run_tree::BlockModel;

verus! {

/// A piece of the rendering of a value. The host turns the pieces into text
/// one after the other.
#[derive(Debug, PartialEq)]
pub enum Fragment {
    /// Text, to be written as it is.
    Text(String),
    /// A decimal, to be written in the form that reads back as the same value.
    Decimal(u64),
    /// Shared code, to be written as a mark of its identity.
    Code(Rc<run_tree::Block>),
}

/// The mathematical content of a fragment.
pub enum FragmentModel {
    Text(Seq<char>),
    Decimal(u64),
    Code(BlockModel),
}

impl View for Fragment {
    type V = FragmentModel;

    open spec fn view(&self) -> FragmentModel {
        match *self {
            Fragment::Text(text) => FragmentModel::Text(text@),
            Fragment::Decimal(bits) => FragmentModel::Decimal(bits),
            Fragment::Code(block) => FragmentModel::Code(block@),
        }
    }
}

/// The content of a rendering, fragment for fragment.
pub open spec fn fragments_view(fragments: Seq<Fragment>) -> Seq<FragmentModel> {
    Seq::new(fragments.len(), |i: int| fragments[i]@)
}

/// The content of a list of renderings.
pub open spec fn lines_view(lines: Seq<Vec<Fragment>>) -> Seq<Seq<FragmentModel>> {
    Seq::new(lines.len(), |i: int| fragments_view(lines[i]@))
}

/// An operand of arithmetic that the host does.
#[derive(Clone, Copy, Debug, PartialEq, Eq, Structural)]
pub enum Scalar {
    Integer(i64),
    Decimal(u64),
}

/// What the engine asks of its host. The engine stands still until the host
/// answers with an event.
#[derive(Debug, PartialEq)]
pub enum Action {
    /// Write the rendering and end the line. Answer: `Done`.
    Print(Vec<Fragment>),
    /// Write each rendering on a line of its own. Answer: `Done`.
    Debug(Vec<Vec<Fragment>>),
    /// Take the time. Answer: `Done`.
    StartTimer,
    /// Write the time since the last start that was not yet stopped. Answer:
    /// `Done`.
    StopTimer,
    /// Read the file at this path and parse it. Answer: `Source`. Where
    /// `lenient`, the program goes on if this fails.
    ReadSource { path: String, lenient: bool },
    /// Turn the rendering into one text. Answer: a string.
    Stringify(Vec<Fragment>),
    /// Compute on two numbers of which at least one is a decimal; `first` was
    /// the top of the stack. Answer: a decimal.
    Arithmetic { op: NumberOp, first: Scalar, second: Scalar },
    /// Negate a decimal. Answer: a decimal.
    Negate(u64),
    /// Read a text as a decimal. Answer: a decimal.
    ParseDecimal(String),
    /// Turn an integer into a decimal. Answer: a decimal.
    ToDecimal(i64),
    /// Cut a decimal down to an integer. Answer: an integer.
    ToInteger(u64),
    /// Make the capability of this name. Answer: an external handle.
    NewExternal(String),
    /// Let the capability behind `handle` do `operation` on the stack. Answer:
    /// `Done`.
    ApplyExternal { handle: usize, operation: String },
}

/// The mathematical content of an action.
pub enum ActionModel {
    Print(Seq<FragmentModel>),
    Debug(Seq<Seq<FragmentModel>>),
    StartTimer,
    StopTimer,
    ReadSource { path: Seq<char>, lenient: bool },
    Stringify(Seq<FragmentModel>),
    Arithmetic { op: NumberOp, first: Scalar, second: Scalar },
    Negate(u64),
    ParseDecimal(Seq<char>),
    ToDecimal(i64),
    ToInteger(u64),
    NewExternal(Seq<char>),
    ApplyExternal { handle: usize, operation: Seq<char> },
}

impl View for Action {
    type V = ActionModel;

    open spec fn view(&self) -> ActionModel {
        match *self {
            Action::Print(fragments) => ActionModel::Print(fragments_view(fragments@)),
            Action::Debug(lines) => ActionModel::Debug(lines_view(lines@)),
            Action::StartTimer => ActionModel::StartTimer,
            Action::StopTimer => ActionModel::StopTimer,
            Action::ReadSource { path, lenient } => ActionModel::ReadSource {
                path: path@,
                lenient,
            },
            Action::Stringify(fragments) => ActionModel::Stringify(fragments_view(fragments@)),
            Action::Arithmetic { op, first, second } => ActionModel::Arithmetic {
                op,
                first,
                second,
            },
            Action::Negate(bits) => ActionModel::Negate(bits),
            Action::ParseDecimal(text) => ActionModel::ParseDecimal(text@),
            Action::ToDecimal(n) => ActionModel::ToDecimal(n),
            Action::ToInteger(bits) => ActionModel::ToInteger(bits),
            Action::NewExternal(name) => ActionModel::NewExternal(name@),
            Action::ApplyExternal { handle, operation } => ActionModel::ApplyExternal {
                handle,
                operation: operation@,
            },
        }
    }
}

/// What the engine waits for after an action.
#[derive(Clone, Copy, Debug, PartialEq, Eq, Structural)]
pub enum Awaiting {
    /// Word that the action is done.
    Done,
    /// A value of this kind, which goes on the stack.
    Value(Kind),
    /// A parsed source. Where `lenient`, a failure is no error: 0 goes on
    /// the stack in place of the closure and 1.
    Source { lenient: bool },
}

/// What the engine waits for after `action`.
pub open spec fn awaited(action: ActionModel) -> Awaiting {
    match action {
        ActionModel::Print(_) => Awaiting::Done,
        ActionModel::Debug(_) => Awaiting::Done,
        ActionModel::StartTimer => Awaiting::Done,
        ActionModel::StopTimer => Awaiting::Done,
        ActionModel::ReadSource { lenient, .. } => Awaiting::Source { lenient },
        ActionModel::Stringify(_) => Awaiting::Value(Kind::String),
        ActionModel::Arithmetic { .. } => Awaiting::Value(Kind::Decimal),
        ActionModel::Negate(_) => Awaiting::Value(Kind::Decimal),
        ActionModel::ParseDecimal(_) => Awaiting::Value(Kind::Decimal),
        ActionModel::ToDecimal(_) => Awaiting::Value(Kind::Decimal),
        ActionModel::ToInteger(_) => Awaiting::Value(Kind::Integer),
        ActionModel::NewExternal(_) => Awaiting::Value(Kind::External),
        ActionModel::ApplyExternal { .. } => Awaiting::Done,
    }
}

/// The host's answer to an action.
#[derive(Debug)]
pub enum Event {
    Done,
    Value(Data),
    Source(ast::Block),
    Failed(String),
}

/// The mathematical content of an event. A parsed source counts as the
/// run tree that is made of it.
pub enum EventModel {
    Done,
    Value(DataModel),
    Source(BlockModel),
    Failed(Seq<char>),
}

impl View for Event {
    type V = EventModel;

    open spec fn view(&self) -> EventModel {
        match *self {
            Event::Done => EventModel::Done,
            Event::Value(data) => EventModel::Value(data@),
            Event::Source(block) => EventModel::Source(run_tree::compile(block@)),
            Event::Failed(message) => EventModel::Failed(message@),
        }
    }
}

/// What a frame still has to do; the last item of its list comes first.
#[derive(Debug, PartialEq)]
pub enum Work {
    /// Run the first `pc` expressions of `block`, the last of them first.
    Code { block: Rc<run_tree::Block>, pc: usize },
    /// Take an integer off the stack and put `on_true` there if it is not 0,
    /// else `on_false`.
    Select { on_true: Data, on_false: Data },
    /// Make a list of the whole stack and put it on top of `saved`, which
    /// becomes the stack again.
    Collect { saved: Vec<Data> },
    /// Ask the host to stop the timer.
    Report,
}

/// The mathematical content of an item of work.
pub enum WorkModel {
    Code { block: BlockModel, pc: nat },
    Select { on_true: DataModel, on_false: DataModel },
    Collect { saved: Seq<DataModel> },
    Report,
}

impl View for Work {
    type V = WorkModel;

    open spec fn view(&self) -> WorkModel {
        match *self {
            Work::Code { block, pc } => WorkModel::Code { block: block@, pc: pc as nat },
            Work::Select { on_true, on_false } => WorkModel::Select {
                on_true: on_true@,
                on_false: on_false@,
            },
            Work::Collect { saved } => WorkModel::Collect { saved: list_view(saved@) },
            Work::Report => WorkModel::Report,
        }
    }
}

/// The content of a work list, item for item.
pub open spec fn work_view(work: Seq<Work>) -> Seq<WorkModel> {
    Seq::new(work.len(), |i: int| work[i]@)
}

/// What one step of a frame leaves for the engine to do.
#[derive(Debug, PartialEq)]
pub enum Effect {
    /// Nothing.
    Done,
    /// The frame has no work left.
    Leave,
    /// Call the closure in a frame of its own.
    Call(Block),
    /// Put the work on the frame's list, then call the closure.
    CallThen(Block, Work),
    /// Run the code in the frame that made the step.
    Local(Rc<run_tree::Block>),
    /// Ask the host.
    Ask(Action),
    /// Call the closure between a start and a stop of the host's timer.
    Timed(Block),
}

/// The mathematical content of an effect.
pub enum EffectModel {
    Done,
    Leave,
    Call(ClosureModel),
    CallThen(ClosureModel, WorkModel),
    Local(BlockModel),
    Ask(ActionModel),
    Timed(ClosureModel),
}

impl View for Effect {
    type V = EffectModel;

    open spec fn view(&self) -> EffectModel {
        match *self {
            Effect::Done => EffectModel::Done,
            Effect::Leave => EffectModel::Leave,
            Effect::Call(closure) => EffectModel::Call(closure@),
            Effect::CallThen(closure, work) => EffectModel::CallThen(closure@, work@),
            Effect::Local(block) => EffectModel::Local(block@),
            Effect::Ask(action) => EffectModel::Ask(action@),
            Effect::Timed(closure) => EffectModel::Timed(closure@),
        }
    }
}

/// What a step of a frame gives: its effect, or the failure that ends the
/// program.
pub type Step = Result<Effect, Error>;

/// How a run of the engine ended.
#[derive(Debug, PartialEq)]
pub enum Outcome {
    /// The program ran to its end.
    Finished,
    /// The steps allowed for this run are used up; the program can go on.
    Paused,
    /// The engine waits for the host to do this.
    Needs(Action),
    /// The program failed. Its frames are gone; the stack and the root
    /// frame's definitions are as the failure left them.
    Failed(Error),
}

/// The mathematical content of an outcome.
pub enum OutcomeModel {
    Finished,
    Paused,
    Needs(ActionModel),
    Failed(ErrorModel),
}

impl View for Outcome {
    type V = OutcomeModel;

    open spec fn view(&self) -> OutcomeModel {
        match *self {
            Outcome::Finished => OutcomeModel::Finished,
            Outcome::Paused => OutcomeModel::Paused,
            Outcome::Needs(action) => OutcomeModel::Needs(action@),
            Outcome::Failed(error) => OutcomeModel::Failed(error@),
        }
    }
}

} // verus!
