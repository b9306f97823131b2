//! Frames and the evaluation of single expressions.

use vstd::prelude::*;
use std::rc::Rc;
use crate::builtins;
use crate::data::{Block, Builtin, ClosureModel, Data, DataModel, Defs, Env, Kind, list_view, share};
use crate::ast;
use crate::effect::{
    Action, ActionModel, Awaiting, Effect, EffectModel, Event, EventModel, Outcome, OutcomeModel,
    Step, Work, WorkModel, awaited, work_view,
};
use crate::error::{Error, ErrorModel, Expected};
use crate::run_tree;
use crate::run_tree::{BlockModel, ExpModel, names_view};

verus! {

/// A frame: the definitions of one running block invocation and the work it
/// still has to do.
#[derive(Debug, PartialEq)]
pub struct BlockExec {
    pub defs: Defs,
    pub work: Vec<Work>,
}

/// The mathematical content of a frame.
pub struct ExecModel {
    pub defs: Env,
    pub work: Seq<WorkModel>,
}

impl View for BlockExec {
    type V = ExecModel;

    open spec fn view(&self) -> ExecModel {
        ExecModel { defs: self.defs@, work: work_view(self.work@) }
    }
}

/// A frame together with the map that its caller handed down.
#[derive(Debug, PartialEq)]
pub struct Frame {
    pub local: BlockExec,
    pub prev_defs: Defs,
}

/// The mathematical content of a frame with the map handed down to it.
pub struct FrameModel {
    pub local: ExecModel,
    pub prev_defs: Env,
}

impl View for Frame {
    type V = FrameModel;

    open spec fn view(&self) -> FrameModel {
        FrameModel { local: self.local@, prev_defs: self.prev_defs@ }
    }
}

/// The state after one step of a frame, and what the step asks for.
pub struct StepModel {
    pub stack: Seq<DataModel>,
    pub local: ExecModel,
    pub result: Result<EffectModel, ErrorModel>,
}

/// The step that leaves `stack` and `local` and asks for nothing.
pub open spec fn done(stack: Seq<DataModel>, local: ExecModel) -> StepModel {
    StepModel { stack, local, result: Ok(EffectModel::Done) }
}

/// The step that leaves `stack` and `local` and fails.
pub open spec fn fail(stack: Seq<DataModel>, local: ExecModel, error: ErrorModel) -> StepModel {
    StepModel { stack, local, result: Err(error) }
}

/// The step that an executable step function made, seen from its results.
pub open spec fn step_of(stack: Vec<Data>, local: BlockExec, res: Step) -> StepModel {
    StepModel {
        stack: list_view(stack@),
        local: local@,
        result: match res {
            Ok(effect) => Ok(effect@),
            Err(error) => Err(error@),
        },
    }
}

/// Name resolution: the frame's own definitions first, then the map handed
/// down by the caller.
pub open spec fn resolve(
    defs: Env,
    prev: Env,
    name: Seq<char>,
) -> Option<DataModel> {
    if defs.contains_key(name) {
        Some(defs[name])
    } else if prev.contains_key(name) {
        Some(prev[name])
    } else {
        None
    }
}

/// The first of `names` that does not resolve.
pub open spec fn first_unresolved(
    names: Seq<Seq<char>>,
    defs: Env,
    prev: Env,
) -> Option<Seq<char>>
    decreases names.len(),
{
    if names.len() == 0 {
        None
    } else if resolve(defs, prev, names[0]) is None {
        Some(names[0])
    } else {
        first_unresolved(names.drop_first(), defs, prev)
    }
}

/// The map that gives each of `names` the value it resolves to.
pub open spec fn snapshot(
    names: Seq<Seq<char>>,
    defs: Env,
    prev: Env,
) -> Env {
    Map::new(|name: Seq<char>| names.contains(name), |name: Seq<char>| resolve(defs, prev, name)->0)
}

/// Taking a snapshot of `names`: it fails on the first name that does not
/// resolve.
pub open spec fn capture(
    names: Seq<Seq<char>>,
    defs: Env,
    prev: Env,
) -> Result<Env, ErrorModel> {
    match first_unresolved(names, defs, prev) {
        Some(name) => Err(ErrorModel::CaptureResolutionFailure(name)),
        None => Ok(snapshot(names, defs, prev)),
    }
}

/// The work of running a whole block.
pub open spec fn code_of(block: BlockModel) -> WorkModel {
    WorkModel::Code { block, pc: block.exps.len() }
}

/// The frame in which a closure runs when a frame with the definitions
/// `defs`, which was itself handed `prev`, calls it: its own definitions are
/// the closure's snapshot, and everything the caller could see is handed down.
pub open spec fn callee(
    defs: Env,
    prev: Env,
    closure: ClosureModel,
) -> FrameModel {
    FrameModel {
        local: ExecModel { defs: closure.captured, work: seq![code_of(closure.block)] },
        prev_defs: prev.union_prefer_right(defs),
    }
}

/// Evaluating one expression.
pub open spec fn eval(
    exp: ExpModel,
    stack: Seq<DataModel>,
    prev: Env,
    local: ExecModel,
) -> StepModel {
    match exp {
        ExpModel::Integer(n) => done(stack.push(DataModel::Integer(n)), local),
        ExpModel::Decimal(bits) => done(stack.push(DataModel::Decimal(bits)), local),
        ExpModel::String(text) => done(stack.push(DataModel::String(text)), local),
        ExpModel::Block(block) => match capture(block.captures, local.defs, prev) {
            Ok(captured) => done(
                stack.push(DataModel::Block(ClosureModel { block, captured })),
                local,
            ),
            Err(error) => fail(stack, local, error),
        },
        ExpModel::Var(name) => match resolve(local.defs, prev, name) {
            None => fail(stack, local, ErrorModel::NameNotFound(name)),
            Some(DataModel::Fn(closure)) => StepModel {
                stack,
                local,
                result: Ok(EffectModel::Call(closure)),
            },
            Some(DataModel::BuiltinFunc(func)) => builtins::apply(func, stack, prev, local),
            Some(data) => done(stack.push(data), local),
        },
    }
}

/// One step of a frame: the last item of its work list is taken up.
pub open spec fn frame_step(
    stack: Seq<DataModel>,
    prev: Env,
    local: ExecModel,
) -> StepModel {
    if local.work.len() == 0 {
        StepModel { stack, local, result: Ok(EffectModel::Leave) }
    } else {
        let rest = ExecModel { work: local.work.drop_last(), ..local };
        match local.work.last() {
            WorkModel::Code { block, pc } => if 0 < pc <= block.exps.len() {
                eval(
                    block.exps[pc - 1],
                    stack,
                    prev,
                    ExecModel {
                        work: rest.work.push(WorkModel::Code { block, pc: (pc - 1) as nat }),
                        ..local
                    },
                )
            } else {
                done(stack, rest)
            },
            WorkModel::Select { on_true, on_false } => if stack.len() == 0 {
                fail(stack, rest, ErrorModel::StackUnderflow(Builtin::If))
            } else {
                match stack.last() {
                    DataModel::Integer(n) => done(
                        stack.drop_last().push(
                            if n != 0 {
                                on_true
                            } else {
                                on_false
                            },
                        ),
                        rest,
                    ),
                    found => fail(
                        stack.drop_last(),
                        rest,
                        ErrorModel::TypeMismatch {
                            operation: Builtin::If,
                            expected: Expected::Kind(Kind::Integer),
                            found,
                        },
                    ),
                }
            },
            WorkModel::Collect { saved } => done(saved.push(DataModel::List(stack)), rest),
            WorkModel::Report => StepModel {
                stack,
                local: rest,
                result: Ok(EffectModel::Ask(ActionModel::StopTimer)),
            },
        }
    }
}

/// Takes the top off the stack for an operation.
pub fn pop(stack: &mut Vec<Data>, operation: Builtin) -> (res: Result<Data, Error>)
    ensures
        match res {
            Ok(data) => {
                &&& old(stack)@.len() > 0
                &&& final(stack)@ == old(stack)@.drop_last()
                &&& data == old(stack)@.last()
                &&& list_view(final(stack)@) == list_view(old(stack)@).drop_last()
                &&& data@ == list_view(old(stack)@).last()
            },
            Err(error) => {
                &&& old(stack)@.len() == 0
                &&& final(stack)@ == old(stack)@
                &&& error@ == ErrorModel::StackUnderflow(operation)
            },
        },
{
    match stack.pop() {
        Some(data) => {
            assert(list_view(stack@) =~= list_view(old(stack)@).drop_last());
            Ok(data)
        },
        None => Err(Error::StackUnderflow(operation)),
    }
}

/// Puts a value on top of the stack.
pub fn push(stack: &mut Vec<Data>, data: Data)
    ensures
        final(stack)@ == old(stack)@.push(data),
        list_view(final(stack)@) == list_view(old(stack)@).push(data@),
{
    stack.push(data);
    assert(list_view(stack@) =~= list_view(old(stack)@).push(data@));
}

impl BlockExec {
    /// A frame with these definitions and nothing to do.
    pub fn new(defs: Defs) -> (res: Self)
        ensures
            res@ == (ExecModel { defs: defs@, work: Seq::empty() }),
            res.defs == defs,
    {
        let res = BlockExec { defs, work: Vec::new() };
        assert(work_view(res.work@) =~= Seq::empty());
        res
    }

    /// Resolves a name from this frame, with `defs_find` as the map handed
    /// down by the caller.
    pub fn get_data(&self, var: &String, defs_find: &Defs) -> (res: Option<Data>)
        ensures
            match res {
                Some(data) => resolve(self.defs@, defs_find@, var@) == Some(data@),
                None => resolve(self.defs@, defs_find@, var@) is None,
            },
    {
        match self.defs.get(var) {
            Some(data) => Some(data.clone()),
            None => match defs_find.get(var) {
                Some(data) => Some(data.clone()),
                None => None,
            },
        }
    }

    /// Takes the snapshot for a closure: the value of each of `vars` as it
    /// resolves now.
    pub fn capture(&self, vars: &Vec<String>, prev_defs: &Defs) -> (res: Result<Defs, Error>)
        ensures
            match res {
                Ok(captured) => capture(names_view(vars@), self.defs@, prev_defs@) == Ok::<
                    Env,
                    ErrorModel,
                >(captured@),
                Err(error) => capture(names_view(vars@), self.defs@, prev_defs@) == Err::<
                    Env,
                    ErrorModel,
                >(error@),
            },
    {
        let ghost names = names_view(vars@);
        let mut captured_vars = Defs::new();
        let mut i: usize = 0;
        assert(names.skip(0) =~= names);
        assert(captured_vars@ =~= snapshot(names.take(0), self.defs@, prev_defs@));
        while i < vars.len()
            invariant
                i <= vars.len(),
                names == names_view(vars@),
                first_unresolved(names, self.defs@, prev_defs@) == first_unresolved(
                    names.skip(i as int),
                    self.defs@,
                    prev_defs@,
                ),
                captured_vars@ == snapshot(names.take(i as int), self.defs@, prev_defs@),
            decreases vars.len() - i,
        {
            assert(names.skip(i as int)[0] == vars@[i as int]@);
            assert(names.skip(i as int).drop_first() =~= names.skip(i + 1));
            match self.get_data(&vars[i], prev_defs) {
                Some(data) => {
                    proof {
                        let next = names.take(i + 1);
                        assert(next =~= names.take(i as int).push(vars@[i as int]@));
                        assert forall|name: Seq<char>| next.contains(name) <==> (names.take(
                            i as int,
                        ).contains(name) || name == vars@[i as int]@) by {
                            if next.contains(name) {
                                let j = choose|j: int| 0 <= j < next.len() && next[j] == name;
                                if j < i {
                                    assert(names.take(i as int)[j] == name);
                                }
                            }
                            if names.take(i as int).contains(name) {
                                let j = choose|j: int|
                                    0 <= j < i && names.take(i as int)[j] == name;
                                assert(next[j] == name);
                            }
                            if name == vars@[i as int]@ {
                                assert(next[i as int] == name);
                            }
                        }
                        assert(captured_vars@.insert(vars@[i as int]@, data@) =~= snapshot(
                            next,
                            self.defs@,
                            prev_defs@,
                        ));
                    }
                    captured_vars.insert(vars[i].clone(), data);
                },
                None => {
                    return Err(Error::CaptureResolutionFailure(vars[i].clone()));
                },
            }
            i += 1;
        }
        assert(names.take(i as int) =~= names);
        Ok(captured_vars)
    }

    /// Sets this frame to run `block`.
    pub fn run_block(&mut self, block: Rc<run_tree::Block>)
        ensures
            final(self)@ == (ExecModel {
                work: old(self)@.work.push(code_of(block@)),
                ..old(self)@
            }),
    {
        let pc = block.exps.len();
        self.work.push(Work::Code { block, pc });
        assert(work_view(self.work@) =~= work_view(old(self).work@).push(code_of(block@)));
    }

    /// Sets this frame, the frame of a whole program, to run `block`.
    pub fn run_root(&mut self, block: Rc<run_tree::Block>)
        ensures
            final(self)@ == (ExecModel {
                work: old(self)@.work.push(code_of(block@)),
                ..old(self)@
            }),
    {
        self.run_block(block)
    }

    /// The frame in which `block` runs when this frame calls it.
    pub fn new_and_run(&self, prev_defs: &Defs, block: &Block) -> (res: Frame)
        ensures
            res@ == callee(self.defs@, prev_defs@, block@),
    {
        let mut call = BlockExec::new(block.captured_vars.clone());
        let defs = prev_defs.overlaid(&self.defs);
        call.run_block(share(&block.block));
        assert(call@.work =~= seq![code_of(block@.block)]);
        Frame { local: call, prev_defs: defs }
    }

    /// Makes one step: takes up the last item of the work list.
    pub fn advance(&mut self, stack: &mut Vec<Data>, prev_defs: &Defs) -> (res: Step)
        ensures
            step_of(*final(stack), *final(self), res) == frame_step(
                list_view(old(stack)@),
                prev_defs@,
                old(self)@,
            ),
    {
        let ghost rest = old(self)@.work.drop_last();
        match self.work.pop() {
            None => Ok(Effect::Leave),
            Some(item) => {
                assert(work_view(self.work@) =~= rest);
                assert(item@ == old(self)@.work.last());
                match item {
                    Work::Code { block, pc } => {
                        if 0 < pc && pc <= block.exps.len() {
                            self.work.push(Work::Code { block: share(&block), pc: pc - 1 });
                            assert(work_view(self.work@) =~= rest.push(
                                WorkModel::Code { block: block@, pc: (pc - 1) as nat },
                            ));
                            self.run_exp(stack, prev_defs, &block.exps[pc - 1])
                        } else {
                            Ok(Effect::Done)
                        }
                    },
                    Work::Select { on_true, on_false } => {
                        let cond = pop(stack, Builtin::If)?;
                        match cond {
                            Data::Integer(n) => {
                                if n != 0 {
                                    push(stack, on_true);
                                } else {
                                    push(stack, on_false);
                                }
                                Ok(Effect::Done)
                            },
                            _ => Err(
                                Error::TypeMismatch {
                                    operation: Builtin::If,
                                    expected: Expected::Kind(Kind::Integer),
                                    found: cond,
                                },
                            ),
                        }
                    },
                    Work::Collect { saved } => {
                        let mut list = saved;
                        core::mem::swap(stack, &mut list);
                        push(stack, Data::List(list));
                        Ok(Effect::Done)
                    },
                    Work::Report => Ok(Effect::Ask(Action::StopTimer)),
                }
            },
        }
    }

    /// Does what the effect of this frame's step asks of the frame itself,
    /// and says what follows for the engine.
    pub fn follow(&mut self, prev_defs: &Defs, effect: Effect) -> (res: Next)
        ensures
            (final(self)@, res@) == follow(old(self)@, prev_defs@, effect@),
    {
        match effect {
            Effect::Done => Next::Go,
            Effect::Leave => Next::Leave,
            Effect::Call(closure) => Next::Enter(self.new_and_run(prev_defs, &closure)),
            Effect::CallThen(closure, work) => {
                let frame = self.new_and_run(prev_defs, &closure);
                self.work.push(work);
                assert(work_view(self.work@) =~= old(self)@.work.push(work@));
                Next::Enter(frame)
            },
            Effect::Local(block) => {
                self.run_block(block);
                Next::Go
            },
            Effect::Ask(action) => Next::Ask(action),
            Effect::Timed(closure) => {
                let frame = self.new_and_run(prev_defs, &closure);
                self.work.push(Work::Report);
                assert(work_view(self.work@) =~= old(self)@.work.push(WorkModel::Report));
                Next::Timed(frame)
            },
        }
    }

    /// Evaluates one expression in this frame.
    pub fn run_exp(
        &mut self,
        stack: &mut Vec<Data>,
        prev_defs: &Defs,
        exp: &run_tree::Exp,
    ) -> (res: Step)
        ensures
            step_of(*final(stack), *final(self), res) == eval(
                exp@,
                list_view(old(stack)@),
                prev_defs@,
                old(self)@,
            ),
    {
        match &exp.data {
            run_tree::ExpData::Var(var) => {
                match self.get_data(var, prev_defs) {
                    Some(data) => match data {
                        Data::Fn(block) => Ok(Effect::Call(block)),
                        Data::BuiltinFunc(func) => builtins::dispatch(func, stack, prev_defs, self),
                        _ => {
                            push(stack, data);
                            Ok(Effect::Done)
                        },
                    },
                    None => Err(Error::NameNotFound(var.clone())),
                }
            },
            run_tree::ExpData::Block(block) => {
                let captured_vars = self.capture(&block.capture_vars, prev_defs)?;
                push(stack, Data::Block(Block { block: share(block), captured_vars }));
                Ok(Effect::Done)
            },
            run_tree::ExpData::Integer(n) => {
                push(stack, Data::Integer(*n));
                Ok(Effect::Done)
            },
            run_tree::ExpData::Decimal(bits) => {
                push(stack, Data::Decimal(*bits));
                Ok(Effect::Done)
            },
            run_tree::ExpData::String(text) => {
                push(stack, Data::String(text.clone()));
                Ok(Effect::Done)
            },
        }
    }
}


/// The number of calls that an engine lets be under way at a time unless it
/// is told otherwise.
pub const CALL_LIMIT: usize = 10000;

/// The engine: the root frame, whose definitions outlive a run; the operand
/// stack; the frames of the calls that are under way, the innermost last;
/// what the engine waits for, if it waits; and the number of calls that may
/// be under way at a time. A program that calls deeper than that fails.
#[derive(Debug)]
pub struct Interpreter {
    pub root: BlockExec,
    pub stack: Vec<Data>,
    pub calls: Vec<Frame>,
    pub awaiting: Option<Awaiting>,
    pub call_limit: usize,
}

/// The mathematical content of the engine.
pub struct MachineModel {
    pub root: ExecModel,
    pub stack: Seq<DataModel>,
    pub calls: Seq<FrameModel>,
    pub awaiting: Option<Awaiting>,
    pub call_limit: usize,
}

/// The content of a list of frames, frame for frame.
pub open spec fn frames_view(frames: Seq<Frame>) -> Seq<FrameModel> {
    Seq::new(frames.len(), |i: int| frames[i]@)
}

impl View for Interpreter {
    type V = MachineModel;

    open spec fn view(&self) -> MachineModel {
        MachineModel {
            root: self.root@,
            stack: list_view(self.stack@),
            calls: frames_view(self.calls@),
            awaiting: self.awaiting,
            call_limit: self.call_limit,
        }
    }
}

/// What a frame's step means for the frames around it.
pub enum NextModel {
    /// The frame goes on.
    Go,
    /// The frame is done.
    Leave,
    /// A call: this frame comes on top.
    Enter(FrameModel),
    /// The host is asked.
    Ask(ActionModel),
    /// A call between a start and a stop of the timer.
    Timed(FrameModel),
}

/// What a frame's step means for the frames around it.
pub enum Next {
    Go,
    Leave,
    Enter(Frame),
    Ask(Action),
    Timed(Frame),
}

impl View for Next {
    type V = NextModel;

    open spec fn view(&self) -> NextModel {
        match *self {
            Next::Go => NextModel::Go,
            Next::Leave => NextModel::Leave,
            Next::Enter(frame) => NextModel::Enter(frame@),
            Next::Ask(action) => NextModel::Ask(action@),
            Next::Timed(frame) => NextModel::Timed(frame@),
        }
    }
}

/// `local` with one more item of work.
pub open spec fn with_work(local: ExecModel, work: WorkModel) -> ExecModel {
    ExecModel { work: local.work.push(work), ..local }
}

/// What the frame `local`, which was handed `prev`, does about the effect of
/// its step: the frame afterwards, and what follows for the engine.
pub open spec fn follow(
    local: ExecModel,
    prev: Env,
    effect: EffectModel,
) -> (ExecModel, NextModel) {
    match effect {
        EffectModel::Done => (local, NextModel::Go),
        EffectModel::Leave => (local, NextModel::Leave),
        EffectModel::Call(closure) => (local, NextModel::Enter(callee(local.defs, prev, closure))),
        EffectModel::CallThen(closure, work) => (
            with_work(local, work),
            NextModel::Enter(callee(local.defs, prev, closure)),
        ),
        EffectModel::Local(block) => (with_work(local, code_of(block)), NextModel::Go),
        EffectModel::Ask(action) => (local, NextModel::Ask(action)),
        EffectModel::Timed(closure) => (
            with_work(local, WorkModel::Report),
            NextModel::Timed(callee(local.defs, prev, closure)),
        ),
    }
}

/// The stack after the work of a frame is given up, the last item first: a
/// list that was being collected is dropped, and the stack saved for it comes
/// back.
pub open spec fn unwind_work(stack: Seq<DataModel>, work: Seq<WorkModel>) -> Seq<DataModel>
    decreases work.len(),
{
    if work.len() == 0 {
        stack
    } else {
        unwind_work(
            match work.last() {
                WorkModel::Collect { saved } => saved,
                _ => stack,
            },
            work.drop_last(),
        )
    }
}

/// The stack after the calls under way are given up, the innermost first.
pub open spec fn unwind_calls(stack: Seq<DataModel>, calls: Seq<FrameModel>) -> Seq<DataModel>
    decreases calls.len(),
{
    if calls.len() == 0 {
        stack
    } else {
        unwind_calls(unwind_work(stack, calls.last().local.work), calls.drop_last())
    }
}

impl MachineModel {
    /// The frame that makes the next step: the innermost call, or the root
    /// frame, to which nothing is handed down.
    pub open spec fn current(self) -> FrameModel {
        if self.calls.len() > 0 {
            self.calls.last()
        } else {
            FrameModel { local: self.root, prev_defs: Map::empty() }
        }
    }

    /// The engine with `local` in place of the current frame.
    pub open spec fn with_current(self, local: ExecModel) -> MachineModel {
        if self.calls.len() > 0 {
            MachineModel {
                calls: self.calls.drop_last().push(
                    FrameModel { local, prev_defs: self.calls.last().prev_defs },
                ),
                ..self
            }
        } else {
            MachineModel { root: local, ..self }
        }
    }

    /// The engine after the running program is given up: no call is under
    /// way, the root frame has nothing to do, and nothing is waited for. The
    /// root frame keeps its definitions.
    pub open spec fn abandoned(self) -> MachineModel {
        MachineModel {
            root: ExecModel { work: Seq::empty(), ..self.root },
            stack: unwind_work(unwind_calls(self.stack, self.calls), self.root.work),
            calls: Seq::empty(),
            awaiting: None,
            call_limit: self.call_limit,
        }
    }

    /// Whether nothing is under way.
    pub open spec fn idle(self) -> bool {
        self.calls.len() == 0 && self.root.work.len() == 0 && self.awaiting is None
    }
}

/// The engine after one step, and whether it goes on.
pub enum Turn {
    Go(MachineModel),
    Stop(MachineModel, OutcomeModel),
}

/// The end of a program that calls deeper than the engine allows.
pub open spec fn too_deep(m: MachineModel) -> Turn {
    Turn::Stop(m.abandoned(), OutcomeModel::Failed(ErrorModel::CallDepthExceeded))
}

/// One step of the engine: the current frame makes a step, and the engine
/// does what the step asks for.
pub open spec fn turn(m: MachineModel) -> Turn {
    let top = m.current();
    let step = frame_step(m.stack, top.prev_defs, top.local);
    let stepped = MachineModel { stack: step.stack, ..m };
    match step.result {
        Err(error) => Turn::Stop(
            stepped.with_current(step.local).abandoned(),
            OutcomeModel::Failed(error),
        ),
        Ok(effect) => {
            let (local, next) = follow(step.local, top.prev_defs, effect);
            let after = stepped.with_current(local);
            match next {
                NextModel::Go => Turn::Go(after),
                NextModel::Leave => if m.calls.len() > 0 {
                    Turn::Go(MachineModel { calls: m.calls.drop_last(), ..stepped })
                } else {
                    Turn::Stop(after, OutcomeModel::Finished)
                },
                NextModel::Enter(frame) => if after.calls.len() < m.call_limit {
                    Turn::Go(MachineModel { calls: after.calls.push(frame), ..after })
                } else {
                    too_deep(after)
                },
                NextModel::Ask(action) => Turn::Stop(
                    MachineModel { awaiting: Some(awaited(action)), ..after },
                    OutcomeModel::Needs(action),
                ),
                NextModel::Timed(frame) => if after.calls.len() < m.call_limit {
                    Turn::Stop(
                        MachineModel {
                            calls: after.calls.push(frame),
                            awaiting: Some(Awaiting::Done),
                            ..after
                        },
                        OutcomeModel::Needs(ActionModel::StartTimer),
                    )
                } else {
                    too_deep(after)
                },
            }
        },
    }
}

/// The engine after at most `budget` steps, and how the run ended.
pub open spec fn run(m: MachineModel, budget: nat) -> (MachineModel, OutcomeModel)
    decreases budget,
{
    if budget == 0 {
        (m, OutcomeModel::Paused)
    } else {
        match turn(m) {
            Turn::Go(next) => run(next, (budget - 1) as nat),
            Turn::Stop(last, outcome) => (last, outcome),
        }
    }
}

/// Going on with what is under way. An engine that waits for its host fails
/// if it is told to go on without an answer.
pub open spec fn proceed(m: MachineModel, budget: nat) -> (MachineModel, OutcomeModel) {
    if m.awaiting is Some {
        (m.abandoned(), OutcomeModel::Failed(ErrorModel::UnexpectedEvent))
    } else {
        run(m, budget)
    }
}

/// Starting a program: what was under way is given up, and the root frame
/// runs `block`.
pub open spec fn start(m: MachineModel, block: BlockModel, budget: nat) -> (
    MachineModel,
    OutcomeModel,
) {
    run(
        MachineModel {
            root: ExecModel { work: seq![code_of(block)], ..m.root },
            ..m.abandoned()
        },
        budget,
    )
}

/// The engine that has taken in the answer to what it asked, or the error
/// that the answer amounts to.
pub open spec fn answered(m: MachineModel, event: EventModel) -> Result<MachineModel, ErrorModel> {
    let ready = MachineModel { awaiting: None, ..m };
    match (m.awaiting, event) {
        (None, _) => Err(ErrorModel::UnexpectedEvent),
        (Some(Awaiting::Source { lenient: true }), EventModel::Failed(_)) => Ok(
            MachineModel { stack: m.stack.push(DataModel::Integer(0)), ..ready },
        ),
        (Some(_), EventModel::Failed(message)) => Err(ErrorModel::External(message)),
        (Some(Awaiting::Done), EventModel::Done) => Ok(ready),
        (Some(Awaiting::Value(kind)), EventModel::Value(data)) => if data.kind() == Some(kind) {
            Ok(MachineModel { stack: m.stack.push(data), ..ready })
        } else {
            Err(ErrorModel::UnexpectedEvent)
        },
        (Some(Awaiting::Source { lenient }), EventModel::Source(block)) => match capture(
            block.captures,
            m.current().local.defs,
            m.current().prev_defs,
        ) {
            Ok(captured) => {
                let closure = DataModel::Block(ClosureModel { block, captured });
                if lenient {
                    Ok(
                        MachineModel {
                            stack: m.stack.push(closure).push(DataModel::Integer(1)),
                            ..ready
                        },
                    )
                } else {
                    Ok(MachineModel { stack: m.stack.push(closure), ..ready })
                }
            },
            Err(error) => if lenient {
                Ok(MachineModel { stack: m.stack.push(DataModel::Integer(0)), ..ready })
            } else {
                Err(error)
            },
        },
        _ => Err(ErrorModel::UnexpectedEvent),
    }
}

/// Going on after the host's answer.
pub open spec fn resume(m: MachineModel, event: EventModel, budget: nat) -> (
    MachineModel,
    OutcomeModel,
) {
    match answered(m, event) {
        Ok(ready) => run(ready, budget),
        Err(error) => (m.abandoned(), OutcomeModel::Failed(error)),
    }
}


/// What an executable step of the engine did, seen from its results.
pub open spec fn turn_of(machine: Interpreter, res: Option<Outcome>) -> Turn {
    match res {
        None => Turn::Go(machine@),
        Some(outcome) => Turn::Stop(machine@, outcome@),
    }
}

/// Gives up the work of a frame.
fn unwind(work: Vec<Work>, stack: &mut Vec<Data>)
    ensures
        list_view(final(stack)@) == unwind_work(list_view(old(stack)@), work_view(work@)),
{
    let ghost all = work_view(work@);
    let mut work = work;
    loop
        invariant
            unwind_work(list_view(stack@), work_view(work@)) == unwind_work(
                list_view(old(stack)@),
                all,
            ),
        ensures
            work@.len() == 0,
        decreases work@.len(),
    {
        let ghost before = work_view(work@);
        match work.pop() {
            None => {
                break ;
            },
            Some(item) => {
                assert(work_view(work@) =~= before.drop_last());
                assert(item@ == before.last());
                match item {
                    Work::Collect { saved } => {
                        *stack = saved;
                    },
                    _ => {},
                }
            },
        }
    }
}

impl Interpreter {
    /// An engine whose root frame has the definitions `builtins`, with an
    /// empty stack and nothing under way.
    pub fn new(builtins: Defs) -> (res: Self)
        ensures
            res@ == (MachineModel {
                root: ExecModel { defs: builtins@, work: Seq::empty() },
                stack: Seq::empty(),
                calls: Seq::empty(),
                awaiting: None,
                call_limit: CALL_LIMIT,
            }),
    {
        let res = Interpreter {
            root: BlockExec::new(builtins),
            stack: Vec::new(),
            calls: Vec::new(),
            awaiting: None,
            call_limit: CALL_LIMIT,
        };
        assert(list_view(res.stack@) =~= Seq::empty());
        assert(frames_view(res.calls@) =~= Seq::empty());
        res
    }

    /// Builds the run tree of a syntax block. The engine stays as it is.
    pub fn load(&mut self, block: &ast::Block) -> (res: Rc<run_tree::Block>)
        ensures
            res@ == run_tree::compile(block@),
            *final(self) == *old(self),
    {
        run_tree::load(block)
    }

    /// Gives up what is under way.
    pub fn abandon(&mut self)
        ensures
            final(self)@ == old(self)@.abandoned(),
    {
        loop
            invariant
                unwind_calls(list_view(self.stack@), frames_view(self.calls@)) == unwind_calls(
                    list_view(old(self).stack@),
                    frames_view(old(self).calls@),
                ),
                self.root == old(self).root,
                self.call_limit == old(self).call_limit,
            ensures
                self.calls@.len() == 0,
            decreases self.calls@.len(),
        {
            let ghost before = frames_view(self.calls@);
            match self.calls.pop() {
                None => {
                    break ;
                },
                Some(frame) => {
                    assert(frames_view(self.calls@) =~= before.drop_last());
                    assert(frame@ == before.last());
                    unwind(frame.local.work, &mut self.stack);
                },
            }
        }
        let mut work: Vec<Work> = Vec::new();
        core::mem::swap(&mut self.root.work, &mut work);
        unwind(work, &mut self.stack);
        self.awaiting = None;
        assert(work_view(self.root.work@) =~= Seq::empty());
        assert(frames_view(self.calls@) =~= Seq::empty());
    }

    /// Makes one step. `None` says that the engine can go on.
    pub fn turn(&mut self) -> (res: Option<Outcome>)
        ensures
            turn_of(*final(self), res) == turn(old(self)@),
    {
        let ghost m = self@;
        let ghost before = frames_view(self.calls@);
        match self.calls.pop() {
            Some(frame) => {
                let mut frame = frame;
                assert(frames_view(self.calls@) =~= before.drop_last());
                assert(frame@ == before.last());
                let ghost rest = frames_view(self.calls@);
                match frame.local.advance(&mut self.stack, &frame.prev_defs) {
                    Err(error) => {
                        self.calls.push(frame);
                        assert(frames_view(self.calls@) =~= rest.push(frame@));
                        self.abandon();
                        Some(Outcome::Failed(error))
                    },
                    Ok(effect) => {
                        let next = frame.local.follow(&frame.prev_defs, effect);
                        match next {
                            Next::Go => {
                                self.calls.push(frame);
                                assert(frames_view(self.calls@) =~= rest.push(frame@));
                                None
                            },
                            Next::Leave => None,
                            Next::Enter(callee) => {
                                self.calls.push(frame);
                                assert(frames_view(self.calls@) =~= rest.push(frame@));
                                if self.calls.len() < self.call_limit {
                                    self.calls.push(callee);
                                    assert(frames_view(self.calls@) =~= rest.push(frame@).push(
                                        callee@,
                                    ));
                                    None
                                } else {
                                    self.abandon();
                                    Some(Outcome::Failed(Error::CallDepthExceeded))
                                }
                            },
                            Next::Ask(action) => {
                                self.calls.push(frame);
                                assert(frames_view(self.calls@) =~= rest.push(frame@));
                                self.awaiting = Some(awaiting_for(&action));
                                Some(Outcome::Needs(action))
                            },
                            Next::Timed(callee) => {
                                self.calls.push(frame);
                                assert(frames_view(self.calls@) =~= rest.push(frame@));
                                if self.calls.len() < self.call_limit {
                                    self.calls.push(callee);
                                    assert(frames_view(self.calls@) =~= rest.push(frame@).push(
                                        callee@,
                                    ));
                                    self.awaiting = Some(Awaiting::Done);
                                    Some(Outcome::Needs(Action::StartTimer))
                                } else {
                                    self.abandon();
                                    Some(Outcome::Failed(Error::CallDepthExceeded))
                                }
                            },
                        }
                    },
                }
            },
            None => {
                assert(before.len() == 0);
                let prev_defs = Defs::new();
                match self.root.advance(&mut self.stack, &prev_defs) {
                    Err(error) => {
                        self.abandon();
                        Some(Outcome::Failed(error))
                    },
                    Ok(effect) => {
                        let next = self.root.follow(&prev_defs, effect);
                        match next {
                            Next::Go => None,
                            Next::Leave => Some(Outcome::Finished),
                            Next::Enter(callee) => {
                                if self.calls.len() < self.call_limit {
                                    self.calls.push(callee);
                                    assert(frames_view(self.calls@) =~= before.push(callee@));
                                    None
                                } else {
                                    self.abandon();
                                    Some(Outcome::Failed(Error::CallDepthExceeded))
                                }
                            },
                            Next::Ask(action) => {
                                self.awaiting = Some(awaiting_for(&action));
                                Some(Outcome::Needs(action))
                            },
                            Next::Timed(callee) => {
                                if self.calls.len() < self.call_limit {
                                    self.calls.push(callee);
                                    assert(frames_view(self.calls@) =~= before.push(callee@));
                                    self.awaiting = Some(Awaiting::Done);
                                    Some(Outcome::Needs(Action::StartTimer))
                                } else {
                                    self.abandon();
                                    Some(Outcome::Failed(Error::CallDepthExceeded))
                                }
                            },
                        }
                    },
                }
            },
        }
    }

    /// Makes steps until the program ends, fails or asks the host, but no
    /// more than `budget` of them.
    fn steps(&mut self, budget: u64) -> (res: Outcome)
        ensures
            (final(self)@, res@) == run(old(self)@, budget as nat),
    {
        let mut left = budget;
        while left > 0
            invariant
                run(self@, left as nat) == run(old(self)@, budget as nat),
            decreases left,
        {
            match self.turn() {
                Some(outcome) => {
                    return outcome;
                },
                None => {},
            }
            left -= 1;
        }
        Outcome::Paused
    }

    /// Goes on with what is under way, for at most `budget` steps.
    pub fn proceed(&mut self, budget: u64) -> (res: Outcome)
        ensures
            (final(self)@, res@) == proceed(old(self)@, budget as nat),
    {
        if self.awaiting.is_some() {
            self.abandon();
            Outcome::Failed(Error::UnexpectedEvent)
        } else {
            self.steps(budget)
        }
    }

    /// Runs `block` as a program in the root frame, for at most `budget`
    /// steps. What was under way before is given up.
    pub fn run(&mut self, block: Rc<run_tree::Block>, budget: u64) -> (res: Outcome)
        ensures
            (final(self)@, res@) == start(old(self)@, block@, budget as nat),
    {
        self.abandon();
        self.root.run_root(block);
        assert(self.root@.work =~= seq![code_of(block@)]);
        self.steps(budget)
    }

    /// Builds the run tree of a syntax block and runs it.
    pub fn load_and_run(&mut self, block: &ast::Block, budget: u64) -> (res: Outcome)
        ensures
            (final(self)@, res@) == start(old(self)@, run_tree::compile(block@), budget as nat),
    {
        let block = self.load(block);
        self.run(block, budget)
    }

    /// Takes the snapshot for a closure in the frame that makes the next
    /// step.
    fn capture_here(&self, vars: &Vec<String>) -> (res: Result<Defs, Error>)
        ensures
            match res {
                Ok(captured) => capture(
                    names_view(vars@),
                    self@.current().local.defs,
                    self@.current().prev_defs,
                ) == Ok::<Env, ErrorModel>(captured@),
                Err(error) => capture(
                    names_view(vars@),
                    self@.current().local.defs,
                    self@.current().prev_defs,
                ) == Err::<Env, ErrorModel>(error@),
            },
    {
        let n = self.calls.len();
        if n > 0 {
            let frame = &self.calls[n - 1];
            frame.local.capture(vars, &frame.prev_defs)
        } else {
            let prev_defs = Defs::new();
            self.root.capture(vars, &prev_defs)
        }
    }

    /// Takes in the host's answer to what the engine asked.
    fn answer(&mut self, event: Event) -> (res: Result<(), Error>)
        ensures
            match res {
                Ok(_) => answered(old(self)@, event@) == Ok::<MachineModel, ErrorModel>(
                    final(self)@,
                ),
                Err(error) => answered(old(self)@, event@) == Err::<MachineModel, ErrorModel>(
                    error@,
                ) && *final(self) == *old(self),
            },
    {
        let awaiting = match self.awaiting {
            None => {
                return Err(Error::UnexpectedEvent);
            },
            Some(awaiting) => awaiting,
        };
        match event {
            Event::Failed(message) => {
                match awaiting {
                    Awaiting::Source { lenient: true } => {
                        push(&mut self.stack, Data::Integer(0));
                        self.awaiting = None;
                        Ok(())
                    },
                    _ => Err(Error::External(message)),
                }
            },
            Event::Done => {
                match awaiting {
                    Awaiting::Done => {
                        self.awaiting = None;
                        Ok(())
                    },
                    _ => Err(Error::UnexpectedEvent),
                }
            },
            Event::Value(data) => {
                match awaiting {
                    Awaiting::Value(kind) => {
                        if data.kind() == Some(kind) {
                            push(&mut self.stack, data);
                            self.awaiting = None;
                            Ok(())
                        } else {
                            Err(Error::UnexpectedEvent)
                        }
                    },
                    _ => Err(Error::UnexpectedEvent),
                }
            },
            Event::Source(tree) => {
                match awaiting {
                    Awaiting::Source { lenient } => {
                        let block = run_tree::load(&tree);
                        match self.capture_here(&block.capture_vars) {
                            Ok(captured_vars) => {
                                push(&mut self.stack, Data::Block(Block { block, captured_vars }));
                                if lenient {
                                    push(&mut self.stack, Data::Integer(1));
                                }
                                self.awaiting = None;
                                Ok(())
                            },
                            Err(error) => {
                                if lenient {
                                    push(&mut self.stack, Data::Integer(0));
                                    self.awaiting = None;
                                    Ok(())
                                } else {
                                    Err(error)
                                }
                            },
                        }
                    },
                    _ => Err(Error::UnexpectedEvent),
                }
            },
        }
    }

    /// Goes on after the host has done what the engine asked, for at most
    /// `budget` steps.
    pub fn resume(&mut self, event: Event, budget: u64) -> (res: Outcome)
        ensures
            (final(self)@, res@) == resume(old(self)@, event@, budget as nat),
    {
        match self.answer(event) {
            Ok(_) => self.steps(budget),
            Err(error) => {
                self.abandon();
                Outcome::Failed(error)
            },
        }
    }
}

/// What the engine waits for after `action`.
pub fn awaiting_for(action: &Action) -> (res: Awaiting)
    ensures
        res == awaited(action@),
{
    match action {
        Action::Print(_) => Awaiting::Done,
        Action::Debug(_) => Awaiting::Done,
        Action::StartTimer => Awaiting::Done,
        Action::StopTimer => Awaiting::Done,
        Action::ReadSource { lenient, .. } => Awaiting::Source { lenient: *lenient },
        Action::Stringify(_) => Awaiting::Value(Kind::String),
        Action::Arithmetic { .. } => Awaiting::Value(Kind::Decimal),
        Action::Negate(_) => Awaiting::Value(Kind::Decimal),
        Action::ParseDecimal(_) => Awaiting::Value(Kind::Decimal),
        Action::ToDecimal(_) => Awaiting::Value(Kind::Decimal),
        Action::ToInteger(_) => Awaiting::Value(Kind::Integer),
        Action::NewExternal(_) => Awaiting::Value(Kind::External),
        Action::ApplyExternal { .. } => Awaiting::Done,
    }
}

} // verus!
