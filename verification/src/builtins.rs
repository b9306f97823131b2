//! The native operations. Each takes the shared stack, the map handed down
//! to the running frame, and the frame itself; it changes the stack and the
//! frame's definitions, and says what is left for the engine to do.

use vstd::prelude::*;
use crate::data::{
    Builtin, ClosureModel, Data, DataModel, Defs, Env, IntegerOp, Kind, NumberOp, data_view,
    list_view,
};
use crate::effect::{
    Action, ActionModel, Effect, EffectModel, Scalar, Step, Work, WorkModel,
};
use crate::error::{Error, ErrorModel, Expected};
use crate::names::builtin_name;
use crate::interpreter::{
    BlockExec, ExecModel, StepModel, done, fail, pop, push, resolve, step_of,
};
use crate::render::{render, render_all, render_data, render_stack};
use crate::text::{chars_of, integer_of, parse_integer};

verus! {

/// The step that fails because `found` is not of the kind that `operation`
/// wants.
pub open spec fn mismatch(
    stack: Seq<DataModel>,
    local: ExecModel,
    operation: Builtin,
    expected: Expected,
    found: DataModel,
) -> StepModel {
    fail(stack, local, ErrorModel::TypeMismatch { operation, expected, found })
}

/// The step that fails because the stack is empty.
pub open spec fn underflow(
    stack: Seq<DataModel>,
    local: ExecModel,
    operation: Builtin,
) -> StepModel {
    fail(stack, local, ErrorModel::StackUnderflow(operation))
}

/// The step that leaves `stack` and `local` and asks the host for `action`.
pub open spec fn ask(stack: Seq<DataModel>, local: ExecModel, action: ActionModel) -> StepModel {
    StepModel { stack, local, result: Ok(EffectModel::Ask(action)) }
}

/// The failure of `operation` on a value of the wrong kind.
fn wrong(operation: Builtin, expected: Expected, found: Data) -> (res: Step)
    ensures
        res matches Err(error) && error@ == (ErrorModel::TypeMismatch {
            operation,
            expected,
            found: found@,
        }),
{
    Err(Error::TypeMismatch { operation, expected, found })
}

/// `Def-fn`: takes a name and a block off the stack and binds the name to the
/// block as a function.
pub open spec fn def_fn_spec(stack: Seq<DataModel>, local: ExecModel) -> StepModel {
    if stack.len() == 0 {
        underflow(stack, local, Builtin::DefFn)
    } else {
        let rest = stack.drop_last();
        match stack.last() {
            DataModel::String(name) => if rest.len() == 0 {
                underflow(rest, local, Builtin::DefFn)
            } else {
                match rest.last() {
                    DataModel::Block(closure) => done(
                        rest.drop_last(),
                        ExecModel {
                            defs: local.defs.insert(name, DataModel::Fn(closure)),
                            ..local
                        },
                    ),
                    found => mismatch(
                        rest.drop_last(),
                        local,
                        Builtin::DefFn,
                        Expected::Kind(Kind::Block),
                        found,
                    ),
                }
            },
            found => mismatch(rest, local, Builtin::DefFn, Expected::Kind(Kind::String), found),
        }
    }
}

/// Performs `Def-fn`.
pub fn def_fn(stack: &mut Vec<Data>, prev_defs: &Defs, block_exec: &mut BlockExec) -> (res: Step)
    ensures
        step_of(*final(stack), *final(block_exec), res) == def_fn_spec(
            list_view(old(stack)@),
            old(block_exec)@,
        ),
{
    let name = pop(stack, Builtin::DefFn)?;
    match name {
        Data::String(name) => {
            let block = pop(stack, Builtin::DefFn)?;
            match block {
                Data::Block(block) => {
                    block_exec.defs.insert(name, Data::Fn(block));
                    Ok(Effect::Done)
                },
                _ => Err(
                    Error::TypeMismatch {
                        operation: Builtin::DefFn,
                        expected: Expected::Kind(Kind::Block),
                        found: block,
                    },
                ),
            }
        },
        _ => Err(
            Error::TypeMismatch {
                operation: Builtin::DefFn,
                expected: Expected::Kind(Kind::String),
                found: name,
            },
        ),
    }
}

/// `Def`: takes a name and a value off the stack and binds the name to the
/// value.
pub open spec fn def_spec(stack: Seq<DataModel>, local: ExecModel) -> StepModel {
    if stack.len() == 0 {
        underflow(stack, local, Builtin::Def)
    } else {
        let rest = stack.drop_last();
        match stack.last() {
            DataModel::String(name) => if rest.len() == 0 {
                underflow(rest, local, Builtin::Def)
            } else {
                done(
                    rest.drop_last(),
                    ExecModel { defs: local.defs.insert(name, rest.last()), ..local },
                )
            },
            found => mismatch(rest, local, Builtin::Def, Expected::Kind(Kind::String), found),
        }
    }
}

/// Performs `Def`.
pub fn def(stack: &mut Vec<Data>, prev_defs: &Defs, block_exec: &mut BlockExec) -> (res: Step)
    ensures
        step_of(*final(stack), *final(block_exec), res) == def_spec(
            list_view(old(stack)@),
            old(block_exec)@,
        ),
{
    let name = pop(stack, Builtin::Def)?;
    match name {
        Data::String(name) => {
            let data = pop(stack, Builtin::Def)?;
            block_exec.defs.insert(name, data);
            Ok(Effect::Done)
        },
        _ => Err(
            Error::TypeMismatch {
                operation: Builtin::Def,
                expected: Expected::Kind(Kind::String),
                found: name,
            },
        ),
    }
}

/// `If`: takes a condition and two values off the stack and puts back the
/// first value if the condition is not 0, else the second. A block as
/// condition is called first, and the integer it leaves decides.
pub open spec fn if_spec(stack: Seq<DataModel>, local: ExecModel) -> StepModel {
    if stack.len() == 0 {
        underflow(stack, local, Builtin::If)
    } else if stack.len() == 1 {
        underflow(stack.drop_last(), local, Builtin::If)
    } else if stack.len() == 2 {
        underflow(stack.drop_last().drop_last(), local, Builtin::If)
    } else {
        let rest = stack.drop_last().drop_last().drop_last();
        let on_true = stack[stack.len() - 2];
        let on_false = stack[stack.len() - 3];
        match stack.last() {
            DataModel::Integer(n) => done(
                rest.push(
                    if n != 0 {
                        on_true
                    } else {
                        on_false
                    },
                ),
                local,
            ),
            DataModel::Block(closure) => StepModel {
                stack: rest,
                local,
                result: Ok(
                    EffectModel::CallThen(closure, WorkModel::Select { on_true, on_false }),
                ),
            },
            found => mismatch(rest, local, Builtin::If, Expected::IntegerOrBlock, found),
        }
    }
}

/// Performs `If`.
pub fn _if(stack: &mut Vec<Data>, prev_defs: &Defs, block_exec: &mut BlockExec) -> (res: Step)
    ensures
        step_of(*final(stack), *final(block_exec), res) == if_spec(
            list_view(old(stack)@),
            old(block_exec)@,
        ),
{
    let cond = pop(stack, Builtin::If)?;
    let true_data = pop(stack, Builtin::If)?;
    let false_data = pop(stack, Builtin::If)?;
    match cond {
        Data::Integer(n) => {
            if n != 0 {
                push(stack, true_data);
            } else {
                push(stack, false_data);
            }
            Ok(Effect::Done)
        },
        Data::Block(block) => Ok(
            Effect::CallThen(block, Work::Select { on_true: true_data, on_false: false_data }),
        ),
        _ => Err(
            Error::TypeMismatch {
                operation: Builtin::If,
                expected: Expected::IntegerOrBlock,
                found: cond,
            },
        ),
    }
}

/// An operation that takes a block off the stack and has the engine do with
/// it what `effect` says.
pub open spec fn take_block(
    stack: Seq<DataModel>,
    local: ExecModel,
    operation: Builtin,
    effect: spec_fn(ClosureModel) -> EffectModel,
) -> StepModel {
    if stack.len() == 0 {
        underflow(stack, local, operation)
    } else {
        match stack.last() {
            DataModel::Block(closure) => StepModel {
                stack: stack.drop_last(),
                local,
                result: Ok(effect(closure)),
            },
            found => mismatch(
                stack.drop_last(),
                local,
                operation,
                Expected::Kind(Kind::Block),
                found,
            ),
        }
    }
}

/// `Do`: takes a block off the stack and calls it.
pub open spec fn do_spec(stack: Seq<DataModel>, local: ExecModel) -> StepModel {
    take_block(stack, local, Builtin::Do, |closure: ClosureModel| EffectModel::Call(closure))
}

/// Performs `Do`.
pub fn _do(stack: &mut Vec<Data>, prev_defs: &Defs, block_exec: &mut BlockExec) -> (res: Step)
    ensures
        step_of(*final(stack), *final(block_exec), res) == do_spec(
            list_view(old(stack)@),
            old(block_exec)@,
        ),
{
    let block = pop(stack, Builtin::Do)?;
    match block {
        Data::Block(block) => Ok(Effect::Call(block)),
        _ => Err(
            Error::TypeMismatch {
                operation: Builtin::Do,
                expected: Expected::Kind(Kind::Block),
                found: block,
            },
        ),
    }
}

/// `Do-local`: takes a block off the stack and runs its code in the running
/// frame, without the block's snapshot.
pub open spec fn do_local_spec(stack: Seq<DataModel>, local: ExecModel) -> StepModel {
    take_block(
        stack,
        local,
        Builtin::DoLocal,
        |closure: ClosureModel| EffectModel::Local(closure.block),
    )
}

/// Performs `Do-local`.
pub fn _do_local(stack: &mut Vec<Data>, prev_defs: &Defs, block_exec: &mut BlockExec) -> (res: Step)
    ensures
        step_of(*final(stack), *final(block_exec), res) == do_local_spec(
            list_view(old(stack)@),
            old(block_exec)@,
        ),
{
    let block = pop(stack, Builtin::DoLocal)?;
    match block {
        Data::Block(block) => Ok(Effect::Local(block.block)),
        _ => Err(
            Error::TypeMismatch {
                operation: Builtin::DoLocal,
                expected: Expected::Kind(Kind::Block),
                found: block,
            },
        ),
    }
}

/// `Get-fn`: takes a name off the stack and puts there, as a block, the
/// function that the name is bound to.
pub open spec fn get_fn_spec(
    stack: Seq<DataModel>,
    prev: Env,
    local: ExecModel,
) -> StepModel {
    if stack.len() == 0 {
        underflow(stack, local, Builtin::GetFn)
    } else {
        let rest = stack.drop_last();
        match stack.last() {
            DataModel::String(name) => match resolve(local.defs, prev, name) {
                None => fail(rest, local, ErrorModel::NameNotFound(name)),
                Some(DataModel::Fn(closure)) => done(rest.push(DataModel::Block(closure)), local),
                Some(found) => mismatch(
                    rest,
                    local,
                    Builtin::GetFn,
                    Expected::Kind(Kind::Fn),
                    found,
                ),
            },
            found => mismatch(rest, local, Builtin::GetFn, Expected::Kind(Kind::String), found),
        }
    }
}

/// Performs `Get-fn`.
pub fn get_fn(stack: &mut Vec<Data>, prev_defs: &Defs, block_exec: &mut BlockExec) -> (res: Step)
    ensures
        step_of(*final(stack), *final(block_exec), res) == get_fn_spec(
            list_view(old(stack)@),
            prev_defs@,
            old(block_exec)@,
        ),
{
    let fn_name = pop(stack, Builtin::GetFn)?;
    match fn_name {
        Data::String(fn_name) => match block_exec.get_data(&fn_name, prev_defs) {
            None => Err(Error::NameNotFound(fn_name)),
            Some(func) => match func {
                Data::Fn(func) => {
                    push(stack, Data::Block(func));
                    Ok(Effect::Done)
                },
                _ => wrong(Builtin::GetFn, Expected::Kind(Kind::Fn), func),
            },
        },
        _ => wrong(Builtin::GetFn, Expected::Kind(Kind::String), fn_name),
    }
}

/// `Get-def`: takes a name off the stack and puts there what the name is
/// bound to, also where that is a function or a native operation.
pub open spec fn get_def_spec(
    stack: Seq<DataModel>,
    prev: Env,
    local: ExecModel,
) -> StepModel {
    if stack.len() == 0 {
        underflow(stack, local, Builtin::GetDef)
    } else {
        let rest = stack.drop_last();
        match stack.last() {
            DataModel::String(name) => match resolve(local.defs, prev, name) {
                None => fail(rest, local, ErrorModel::NameNotFound(name)),
                Some(data) => done(rest.push(data), local),
            },
            found => mismatch(rest, local, Builtin::GetDef, Expected::Kind(Kind::String), found),
        }
    }
}

/// Performs `Get-def`.
pub fn get_def(stack: &mut Vec<Data>, prev_defs: &Defs, block_exec: &mut BlockExec) -> (res: Step)
    ensures
        step_of(*final(stack), *final(block_exec), res) == get_def_spec(
            list_view(old(stack)@),
            prev_defs@,
            old(block_exec)@,
        ),
{
    let def_name = pop(stack, Builtin::GetDef)?;
    match def_name {
        Data::String(def_name) => match block_exec.get_data(&def_name, prev_defs) {
            None => Err(Error::NameNotFound(def_name)),
            Some(data) => {
                push(stack, data);
                Ok(Effect::Done)
            },
        },
        _ => wrong(Builtin::GetDef, Expected::Kind(Kind::String), def_name),
    }
}

/// `Has-def`: takes a name off the stack and puts there 1 if the name is
/// bound, else 0.
pub open spec fn has_def_spec(
    stack: Seq<DataModel>,
    prev: Env,
    local: ExecModel,
) -> StepModel {
    if stack.len() == 0 {
        underflow(stack, local, Builtin::HasDef)
    } else {
        let rest = stack.drop_last();
        match stack.last() {
            DataModel::String(name) => done(
                rest.push(
                    DataModel::Integer(
                        if resolve(local.defs, prev, name) is Some {
                            1
                        } else {
                            0
                        },
                    ),
                ),
                local,
            ),
            found => mismatch(rest, local, Builtin::HasDef, Expected::Kind(Kind::String), found),
        }
    }
}

/// Performs `Has-def`.
pub fn has_def(stack: &mut Vec<Data>, prev_defs: &Defs, block_exec: &mut BlockExec) -> (res: Step)
    ensures
        step_of(*final(stack), *final(block_exec), res) == has_def_spec(
            list_view(old(stack)@),
            prev_defs@,
            old(block_exec)@,
        ),
{
    let def_name = pop(stack, Builtin::HasDef)?;
    match def_name {
        Data::String(def_name) => {
            if block_exec.get_data(&def_name, prev_defs).is_some() {
                push(stack, Data::Integer(1));
            } else {
                push(stack, Data::Integer(0));
            }
            Ok(Effect::Done)
        },
        _ => wrong(Builtin::HasDef, Expected::Kind(Kind::String), def_name),
    }
}

/// `Timer`: takes a block off the stack and calls it between a start and a
/// stop of the host's timer.
pub open spec fn timer_spec(stack: Seq<DataModel>, local: ExecModel) -> StepModel {
    take_block(
        stack,
        local,
        Builtin::Timer,
        |closure: ClosureModel| EffectModel::Timed(closure),
    )
}

/// Performs `Timer`.
pub fn timer(stack: &mut Vec<Data>, prev_defs: &Defs, block_exec: &mut BlockExec) -> (res: Step)
    ensures
        step_of(*final(stack), *final(block_exec), res) == timer_spec(
            list_view(old(stack)@),
            old(block_exec)@,
        ),
{
    let block = pop(stack, Builtin::Timer)?;
    match block {
        Data::Block(block) => Ok(Effect::Timed(block)),
        _ => wrong(Builtin::Timer, Expected::Kind(Kind::Block), block),
    }
}

/// `Print`: takes a value off the stack and has its rendering written.
pub open spec fn print_spec(stack: Seq<DataModel>, local: ExecModel) -> StepModel {
    if stack.len() == 0 {
        underflow(stack, local, Builtin::Print)
    } else {
        ask(stack.drop_last(), local, ActionModel::Print(render(stack.last())))
    }
}

/// Performs `Print`.
pub fn print(stack: &mut Vec<Data>, prev_defs: &Defs, block_exec: &mut BlockExec) -> (res: Step)
    ensures
        step_of(*final(stack), *final(block_exec), res) == print_spec(
            list_view(old(stack)@),
            old(block_exec)@,
        ),
{
    let data = pop(stack, Builtin::Print)?;
    Ok(Effect::Ask(Action::Print(render_data(&data))))
}

/// `Debug`: has the whole stack written, the top first, and leaves it as it
/// is.
pub open spec fn debug_spec(stack: Seq<DataModel>, local: ExecModel) -> StepModel {
    ask(stack, local, ActionModel::Debug(render_stack(stack)))
}

/// Performs `Debug`.
pub fn debug(stack: &mut Vec<Data>, prev_defs: &Defs, block_exec: &mut BlockExec) -> (res: Step)
    ensures
        step_of(*final(stack), *final(block_exec), res) == debug_spec(
            list_view(old(stack)@),
            old(block_exec)@,
        ),
{
    let lines = render_all(stack);
    Ok(Effect::Ask(Action::Debug(lines)))
}

/// `Assert`: takes an integer off the stack and fails if it is 0.
pub open spec fn assert_spec(stack: Seq<DataModel>, local: ExecModel) -> StepModel {
    if stack.len() == 0 {
        underflow(stack, local, Builtin::Assert)
    } else {
        let rest = stack.drop_last();
        match stack.last() {
            DataModel::Integer(n) => if n == 0 {
                fail(rest, local, ErrorModel::UserAssertionFailure)
            } else {
                done(rest, local)
            },
            found => mismatch(rest, local, Builtin::Assert, Expected::Kind(Kind::Integer), found),
        }
    }
}

/// Performs `Assert`.
pub fn _assert(stack: &mut Vec<Data>, prev_defs: &Defs, block_exec: &mut BlockExec) -> (res: Step)
    ensures
        step_of(*final(stack), *final(block_exec), res) == assert_spec(
            list_view(old(stack)@),
            old(block_exec)@,
        ),
{
    let cond = pop(stack, Builtin::Assert)?;
    match cond {
        Data::Integer(n) => {
            if n == 0 {
                Err(Error::UserAssertionFailure)
            } else {
                Ok(Effect::Done)
            }
        },
        _ => wrong(Builtin::Assert, Expected::Kind(Kind::Integer), cond),
    }
}

/// `Use-file` and, where `lenient`, `Try-use-file`: takes a path off the
/// stack and asks the host for the parsed source of that file. What comes of
/// the answer is for the engine to say: the source as a closure on the stack,
/// with its captures taken where the operation ran.
pub open spec fn use_file_spec(
    stack: Seq<DataModel>,
    local: ExecModel,
    lenient: bool,
) -> StepModel {
    let operation = if lenient {
        Builtin::TryUseFile
    } else {
        Builtin::UseFile
    };
    if stack.len() == 0 {
        underflow(stack, local, operation)
    } else {
        let rest = stack.drop_last();
        match stack.last() {
            DataModel::String(path) => ask(rest, local, ActionModel::ReadSource { path, lenient }),
            found => mismatch(rest, local, operation, Expected::Kind(Kind::String), found),
        }
    }
}

/// Performs `Use-file`.
pub fn use_file(stack: &mut Vec<Data>, prev_defs: &Defs, block_exec: &mut BlockExec) -> (res: Step)
    ensures
        step_of(*final(stack), *final(block_exec), res) == use_file_spec(
            list_view(old(stack)@),
            old(block_exec)@,
            false,
        ),
{
    let file = pop(stack, Builtin::UseFile)?;
    match file {
        Data::String(path) => Ok(Effect::Ask(Action::ReadSource { path, lenient: false })),
        _ => wrong(Builtin::UseFile, Expected::Kind(Kind::String), file),
    }
}

/// Performs `Try-use-file`.
pub fn try_use_file(
    stack: &mut Vec<Data>,
    prev_defs: &Defs,
    block_exec: &mut BlockExec,
) -> (res: Step)
    ensures
        step_of(*final(stack), *final(block_exec), res) == use_file_spec(
            list_view(old(stack)@),
            old(block_exec)@,
            true,
        ),
{
    let file = pop(stack, Builtin::TryUseFile)?;
    match file {
        Data::String(path) => Ok(Effect::Ask(Action::ReadSource { path, lenient: true })),
        _ => wrong(Builtin::TryUseFile, Expected::Kind(Kind::String), file),
    }
}

/// `Any!`: fails if the stack is empty.
pub open spec fn any_assert_spec(stack: Seq<DataModel>, local: ExecModel) -> StepModel {
    if stack.len() == 0 {
        underflow(stack, local, Builtin::AnyAssert)
    } else {
        done(stack, local)
    }
}

/// Performs `Any!`.
pub fn any_assert(
    stack: &mut Vec<Data>,
    prev_defs: &Defs,
    block_exec: &mut BlockExec,
) -> (res: Step)
    ensures
        step_of(*final(stack), *final(block_exec), res) == any_assert_spec(
            list_view(old(stack)@),
            old(block_exec)@,
        ),
{
    if stack.len() == 0 {
        Err(Error::StackUnderflow(Builtin::AnyAssert))
    } else {
        Ok(Effect::Done)
    }
}

/// `Any?`: puts 0 on the stack if it is empty, else 1.
pub open spec fn any_check_spec(stack: Seq<DataModel>, local: ExecModel) -> StepModel {
    done(
        stack.push(
            DataModel::Integer(
                if stack.len() == 0 {
                    0
                } else {
                    1
                },
            ),
        ),
        local,
    )
}

/// Performs `Any?`.
pub fn any_check(stack: &mut Vec<Data>, prev_defs: &Defs, block_exec: &mut BlockExec) -> (res: Step)
    ensures
        step_of(*final(stack), *final(block_exec), res) == any_check_spec(
            list_view(old(stack)@),
            old(block_exec)@,
        ),
{
    if stack.len() == 0 {
        push(stack, Data::Integer(0));
    } else {
        push(stack, Data::Integer(1));
    }
    Ok(Effect::Done)
}

/// `Drop`: takes a value off the stack.
pub open spec fn drop_spec(stack: Seq<DataModel>, local: ExecModel) -> StepModel {
    if stack.len() == 0 {
        underflow(stack, local, Builtin::Drop)
    } else {
        done(stack.drop_last(), local)
    }
}

/// Performs `Drop`.
pub fn drop(stack: &mut Vec<Data>, prev_defs: &Defs, block_exec: &mut BlockExec) -> (res: Step)
    ensures
        step_of(*final(stack), *final(block_exec), res) == drop_spec(
            list_view(old(stack)@),
            old(block_exec)@,
        ),
{
    let _ = pop(stack, Builtin::Drop)?;
    Ok(Effect::Done)
}

/// The assertion of a kind: fails unless the top of the stack, which stays
/// there, is of the kind.
pub open spec fn type_assert_spec(
    stack: Seq<DataModel>,
    local: ExecModel,
    kind: Kind,
) -> StepModel {
    if stack.len() == 0 {
        underflow(stack, local, Builtin::TypeAssert(kind))
    } else if stack.last().kind() == Some(kind) {
        done(stack, local)
    } else {
        mismatch(stack, local, Builtin::TypeAssert(kind), Expected::Kind(kind), stack.last())
    }
}

/// The assertion of a kind.
pub fn type_assert(
    kind: Kind,
    stack: &mut Vec<Data>,
    prev_defs: &Defs,
    block_exec: &mut BlockExec,
) -> (res: Step)
    ensures
        step_of(*final(stack), *final(block_exec), res) == type_assert_spec(
            list_view(old(stack)@),
            old(block_exec)@,
            kind,
        ),
{
    let n = stack.len();
    if n == 0 {
        return Err(Error::StackUnderflow(Builtin::TypeAssert(kind)));
    }
    let d = &stack[n - 1];
    if d.kind() == Some(kind) {
        Ok(Effect::Done)
    } else {
        wrong(Builtin::TypeAssert(kind), Expected::Kind(kind), d.clone())
    }
}

/// The check of a kind: takes a value off the stack and puts there 1 if it
/// is of the kind, else 0.
pub open spec fn type_check_spec(stack: Seq<DataModel>, local: ExecModel, kind: Kind) -> StepModel {
    if stack.len() == 0 {
        underflow(stack, local, Builtin::TypeCheck(kind))
    } else {
        done(
            stack.drop_last().push(
                DataModel::Integer(
                    if stack.last().kind() == Some(kind) {
                        1
                    } else {
                        0
                    },
                ),
            ),
            local,
        )
    }
}

/// The check of a kind.
pub fn type_check(
    kind: Kind,
    stack: &mut Vec<Data>,
    prev_defs: &Defs,
    block_exec: &mut BlockExec,
) -> (res: Step)
    ensures
        step_of(*final(stack), *final(block_exec), res) == type_check_spec(
            list_view(old(stack)@),
            old(block_exec)@,
            kind,
        ),
{
    let d = pop(stack, Builtin::TypeCheck(kind))?;
    if d.kind() == Some(kind) {
        push(stack, Data::Integer(1));
    } else {
        push(stack, Data::Integer(0));
    }
    Ok(Effect::Done)
}

/// `To-integer`: takes a value off the stack and puts there the integer it
/// stands for: an integer itself, the integer that a string spells, or, by
/// the host's doing, the integer part of a decimal.
pub open spec fn to_integer_spec(stack: Seq<DataModel>, local: ExecModel) -> StepModel {
    if stack.len() == 0 {
        underflow(stack, local, Builtin::ToInteger)
    } else {
        let rest = stack.drop_last();
        match stack.last() {
            DataModel::String(text) => match integer_of(text) {
                Some(n) => done(rest.push(DataModel::Integer(n)), local),
                None => fail(rest, local, ErrorModel::NotAnInteger(text)),
            },
            DataModel::Integer(n) => done(rest.push(DataModel::Integer(n)), local),
            DataModel::Decimal(bits) => ask(rest, local, ActionModel::ToInteger(bits)),
            found => mismatch(rest, local, Builtin::ToInteger, Expected::StringOrNumber, found),
        }
    }
}

/// Performs `To-integer`.
pub fn to_integer(
    stack: &mut Vec<Data>,
    prev_defs: &Defs,
    block_exec: &mut BlockExec,
) -> (res: Step)
    ensures
        step_of(*final(stack), *final(block_exec), res) == to_integer_spec(
            list_view(old(stack)@),
            old(block_exec)@,
        ),
{
    let d = pop(stack, Builtin::ToInteger)?;
    match d {
        Data::String(text) => match parse_integer(text.as_str()) {
            Some(n) => {
                push(stack, Data::Integer(n));
                Ok(Effect::Done)
            },
            None => Err(Error::NotAnInteger(text)),
        },
        Data::Integer(n) => {
            push(stack, Data::Integer(n));
            Ok(Effect::Done)
        },
        Data::Decimal(bits) => Ok(Effect::Ask(Action::ToInteger(bits))),
        _ => wrong(Builtin::ToInteger, Expected::StringOrNumber, d),
    }
}

/// `To-decimal`: takes a value off the stack and puts there the decimal it
/// stands for: a decimal itself, or, by the host's doing, the decimal of an
/// integer or the decimal that a string spells.
pub open spec fn to_decimal_spec(stack: Seq<DataModel>, local: ExecModel) -> StepModel {
    if stack.len() == 0 {
        underflow(stack, local, Builtin::ToDecimal)
    } else {
        let rest = stack.drop_last();
        match stack.last() {
            DataModel::String(text) => ask(rest, local, ActionModel::ParseDecimal(text)),
            DataModel::Integer(n) => ask(rest, local, ActionModel::ToDecimal(n)),
            DataModel::Decimal(bits) => done(rest.push(DataModel::Decimal(bits)), local),
            found => mismatch(rest, local, Builtin::ToDecimal, Expected::StringOrNumber, found),
        }
    }
}

/// Performs `To-decimal`.
pub fn to_decimal(
    stack: &mut Vec<Data>,
    prev_defs: &Defs,
    block_exec: &mut BlockExec,
) -> (res: Step)
    ensures
        step_of(*final(stack), *final(block_exec), res) == to_decimal_spec(
            list_view(old(stack)@),
            old(block_exec)@,
        ),
{
    let d = pop(stack, Builtin::ToDecimal)?;
    match d {
        Data::String(text) => Ok(Effect::Ask(Action::ParseDecimal(text))),
        Data::Integer(n) => Ok(Effect::Ask(Action::ToDecimal(n))),
        Data::Decimal(bits) => {
            push(stack, Data::Decimal(bits));
            Ok(Effect::Done)
        },
        _ => wrong(Builtin::ToDecimal, Expected::StringOrNumber, d),
    }
}

/// `To-string`: takes a value off the stack and puts there, by the host's
/// doing, its rendering as a string.
pub open spec fn to_string_spec(stack: Seq<DataModel>, local: ExecModel) -> StepModel {
    if stack.len() == 0 {
        underflow(stack, local, Builtin::ToString)
    } else {
        ask(stack.drop_last(), local, ActionModel::Stringify(render(stack.last())))
    }
}

/// Performs `To-string`.
pub fn to_string(stack: &mut Vec<Data>, prev_defs: &Defs, block_exec: &mut BlockExec) -> (res: Step)
    ensures
        step_of(*final(stack), *final(block_exec), res) == to_string_spec(
            list_view(old(stack)@),
            old(block_exec)@,
        ),
{
    let d = pop(stack, Builtin::ToString)?;
    Ok(Effect::Ask(Action::Stringify(render_data(&d))))
}

/// `To-list`: takes a value off the stack and puts there the list of that
/// one value.
pub open spec fn to_list_spec(stack: Seq<DataModel>, local: ExecModel) -> StepModel {
    if stack.len() == 0 {
        underflow(stack, local, Builtin::ToList)
    } else {
        done(stack.drop_last().push(DataModel::List(seq![stack.last()])), local)
    }
}

/// Performs `To-list`.
pub fn to_list(stack: &mut Vec<Data>, prev_defs: &Defs, block_exec: &mut BlockExec) -> (res: Step)
    ensures
        step_of(*final(stack), *final(block_exec), res) == to_list_spec(
            list_view(old(stack)@),
            old(block_exec)@,
        ),
{
    let d = pop(stack, Builtin::ToList)?;
    let mut items: Vec<Data> = Vec::new();
    items.push(d);
    assert(list_view(items@) =~= seq![d@]);
    push(stack, Data::List(items));
    Ok(Effect::Done)
}

/// `New-ext`: takes a name off the stack and asks the host for the
/// capability of that name.
pub open spec fn new_external_spec(stack: Seq<DataModel>, local: ExecModel) -> StepModel {
    if stack.len() == 0 {
        underflow(stack, local, Builtin::NewExt)
    } else {
        let rest = stack.drop_last();
        match stack.last() {
            DataModel::String(name) => ask(rest, local, ActionModel::NewExternal(name)),
            found => mismatch(rest, local, Builtin::NewExt, Expected::Kind(Kind::String), found),
        }
    }
}

/// Performs `New-ext`.
pub fn new_external(
    stack: &mut Vec<Data>,
    prev_defs: &Defs,
    block_exec: &mut BlockExec,
) -> (res: Step)
    ensures
        step_of(*final(stack), *final(block_exec), res) == new_external_spec(
            list_view(old(stack)@),
            old(block_exec)@,
        ),
{
    let name = pop(stack, Builtin::NewExt)?;
    match name {
        Data::String(name) => Ok(Effect::Ask(Action::NewExternal(name))),
        _ => wrong(Builtin::NewExt, Expected::Kind(Kind::String), name),
    }
}

/// `Use-ext`: takes the name of an operation and a capability off the stack
/// and asks the host to let the capability do the operation on the stack.
pub open spec fn use_external_spec(stack: Seq<DataModel>, local: ExecModel) -> StepModel {
    if stack.len() == 0 {
        underflow(stack, local, Builtin::UseExt)
    } else {
        let rest = stack.drop_last();
        match stack.last() {
            DataModel::String(operation) => if rest.len() == 0 {
                underflow(rest, local, Builtin::UseExt)
            } else {
                match rest.last() {
                    DataModel::External(handle) => ask(
                        rest.drop_last(),
                        local,
                        ActionModel::ApplyExternal { handle, operation },
                    ),
                    found => mismatch(
                        rest.drop_last(),
                        local,
                        Builtin::UseExt,
                        Expected::Kind(Kind::External),
                        found,
                    ),
                }
            },
            found => mismatch(rest, local, Builtin::UseExt, Expected::Kind(Kind::String), found),
        }
    }
}

/// Performs `Use-ext`.
pub fn use_external(
    stack: &mut Vec<Data>,
    prev_defs: &Defs,
    block_exec: &mut BlockExec,
) -> (res: Step)
    ensures
        step_of(*final(stack), *final(block_exec), res) == use_external_spec(
            list_view(old(stack)@),
            old(block_exec)@,
        ),
{
    let func = pop(stack, Builtin::UseExt)?;
    match func {
        Data::String(operation) => {
            let ext = pop(stack, Builtin::UseExt)?;
            match ext {
                Data::External(handle) => Ok(
                    Effect::Ask(Action::ApplyExternal { handle, operation }),
                ),
                _ => wrong(Builtin::UseExt, Expected::Kind(Kind::External), ext),
            }
        },
        _ => wrong(Builtin::UseExt, Expected::Kind(Kind::String), func),
    }
}

/// `String-join`: takes two strings off the stack and puts there the one
/// that was on top followed by the other.
pub open spec fn string_join_spec(stack: Seq<DataModel>, local: ExecModel) -> StepModel {
    if stack.len() == 0 {
        underflow(stack, local, Builtin::StringJoin)
    } else {
        let rest = stack.drop_last();
        match stack.last() {
            DataModel::String(first) => if rest.len() == 0 {
                underflow(rest, local, Builtin::StringJoin)
            } else {
                match rest.last() {
                    DataModel::String(second) => done(
                        rest.drop_last().push(DataModel::String(first + second)),
                        local,
                    ),
                    found => mismatch(
                        rest.drop_last(),
                        local,
                        Builtin::StringJoin,
                        Expected::Kind(Kind::String),
                        found,
                    ),
                }
            },
            found => mismatch(
                rest,
                local,
                Builtin::StringJoin,
                Expected::Kind(Kind::String),
                found,
            ),
        }
    }
}

/// Performs `String-join`.
pub fn string_join(
    stack: &mut Vec<Data>,
    prev_defs: &Defs,
    block_exec: &mut BlockExec,
) -> (res: Step)
    ensures
        step_of(*final(stack), *final(block_exec), res) == string_join_spec(
            list_view(old(stack)@),
            old(block_exec)@,
        ),
{
    let s1 = pop(stack, Builtin::StringJoin)?;
    match s1 {
        Data::String(s1) => {
            let s2 = pop(stack, Builtin::StringJoin)?;
            match s2 {
                Data::String(s2) => {
                    let mut joined = s1;
                    joined.append(s2.as_str());
                    push(stack, Data::String(joined));
                    Ok(Effect::Done)
                },
                _ => wrong(Builtin::StringJoin, Expected::Kind(Kind::String), s2),
            }
        },
        _ => wrong(Builtin::StringJoin, Expected::Kind(Kind::String), s1),
    }
}

/// The characters of a text as a list of strings of one character each, the
/// first character on top.
pub open spec fn chars_list(text: Seq<char>) -> Seq<DataModel> {
    Seq::new(text.len(), |i: int| DataModel::String(seq![text[text.len() - 1 - i]]))
}

/// `String-chars`: takes a string off the stack and puts there the list of
/// its characters.
pub open spec fn string_chars_spec(stack: Seq<DataModel>, local: ExecModel) -> StepModel {
    if stack.len() == 0 {
        underflow(stack, local, Builtin::StringChars)
    } else {
        let rest = stack.drop_last();
        match stack.last() {
            DataModel::String(text) => done(rest.push(DataModel::List(chars_list(text))), local),
            found => mismatch(
                rest,
                local,
                Builtin::StringChars,
                Expected::Kind(Kind::String),
                found,
            ),
        }
    }
}

/// Performs `String-chars`.
pub fn string_chars(
    stack: &mut Vec<Data>,
    prev_defs: &Defs,
    block_exec: &mut BlockExec,
) -> (res: Step)
    ensures
        step_of(*final(stack), *final(block_exec), res) == string_chars_spec(
            list_view(old(stack)@),
            old(block_exec)@,
        ),
{
    let s = pop(stack, Builtin::StringChars)?;
    match s {
        Data::String(text) => {
            let chars = chars_of(text.as_str());
            let n = chars.len();
            let mut items: Vec<Data> = Vec::new();
            let mut i: usize = n;
            while i > 0
                invariant
                    i <= n,
                    n == text@.len(),
                    chars@ == text@,
                    items@.len() == n - i,
                    forall|k: int|
                        0 <= k < items@.len() ==> data_view(#[trigger] items@[k])
                            == DataModel::String(seq![text@[n - 1 - k]]),
                decreases i,
            {
                i -= 1;
                let mut one = String::new();
                one.push(chars[i]);
                assert(one@ =~= seq![text@[i as int]]);
                items.push(Data::String(one));
            }
            assert(list_view(items@) =~= chars_list(text@));
            push(stack, Data::List(items));
            Ok(Effect::Done)
        },
        _ => wrong(Builtin::StringChars, Expected::Kind(Kind::String), s),
    }
}

/// `List`: takes a block off the stack and calls it on an empty stack; what
/// the block leaves there becomes a list on top of the stack as it was.
pub open spec fn list_spec(stack: Seq<DataModel>, local: ExecModel) -> StepModel {
    if stack.len() == 0 {
        underflow(stack, local, Builtin::List)
    } else {
        let rest = stack.drop_last();
        match stack.last() {
            DataModel::Block(closure) => StepModel {
                stack: Seq::empty(),
                local,
                result: Ok(EffectModel::CallThen(closure, WorkModel::Collect { saved: rest })),
            },
            found => mismatch(rest, local, Builtin::List, Expected::Kind(Kind::Block), found),
        }
    }
}

/// Performs `List`.
pub fn list(stack: &mut Vec<Data>, prev_defs: &Defs, block_exec: &mut BlockExec) -> (res: Step)
    ensures
        step_of(*final(stack), *final(block_exec), res) == list_spec(
            list_view(old(stack)@),
            old(block_exec)@,
        ),
{
    let block = pop(stack, Builtin::List)?;
    match block {
        Data::Block(block) => {
            let mut saved: Vec<Data> = Vec::new();
            core::mem::swap(stack, &mut saved);
            assert(list_view(stack@) =~= Seq::empty());
            Ok(Effect::CallThen(block, Work::Collect { saved }))
        },
        _ => wrong(Builtin::List, Expected::Kind(Kind::Block), block),
    }
}

/// An operation that takes a list off the stack and leaves the stack that
/// `result` makes of the list and of the rest of the stack.
pub open spec fn take_list(
    stack: Seq<DataModel>,
    local: ExecModel,
    operation: Builtin,
    result: spec_fn(Seq<DataModel>, Seq<DataModel>) -> Seq<DataModel>,
) -> StepModel {
    if stack.len() == 0 {
        underflow(stack, local, operation)
    } else {
        let rest = stack.drop_last();
        match stack.last() {
            DataModel::List(items) => done(result(items, rest), local),
            found => mismatch(rest, local, operation, Expected::Kind(Kind::List), found),
        }
    }
}

/// `List-reverse`: turns the list on top of the stack round.
pub open spec fn list_reverse_spec(stack: Seq<DataModel>, local: ExecModel) -> StepModel {
    take_list(
        stack,
        local,
        Builtin::ListReverse,
        |items: Seq<DataModel>, rest: Seq<DataModel>| rest.push(DataModel::List(items.reverse())),
    )
}

/// Performs `List-reverse`.
pub fn list_reverse(
    stack: &mut Vec<Data>,
    prev_defs: &Defs,
    block_exec: &mut BlockExec,
) -> (res: Step)
    ensures
        step_of(*final(stack), *final(block_exec), res) == list_reverse_spec(
            list_view(old(stack)@),
            old(block_exec)@,
        ),
{
    let list = pop(stack, Builtin::ListReverse)?;
    match list {
        Data::List(items) => {
            let ghost all = items@;
            let mut items = items;
            let mut turned: Vec<Data> = Vec::new();
            loop
                invariant
                    items@ == all.take(items@.len() as int),
                    turned@.len() + items@.len() == all.len(),
                    forall|k: int|
                        0 <= k < turned@.len() ==> #[trigger] turned@[k] == all[all.len() - 1 - k],
                ensures
                    items@.len() == 0,
                decreases items@.len(),
            {
                match items.pop() {
                    None => {
                        break ;
                    },
                    Some(item) => {
                        turned.push(item);
                    },
                }
            }
            assert(list_view(turned@) =~= list_view(all).reverse());
            push(stack, Data::List(turned));
            Ok(Effect::Done)
        },
        _ => wrong(Builtin::ListReverse, Expected::Kind(Kind::List), list),
    }
}

/// `List-stack`: makes one list of the whole stack.
pub open spec fn list_stack_spec(stack: Seq<DataModel>, local: ExecModel) -> StepModel {
    done(seq![DataModel::List(stack)], local)
}

/// Performs `List-stack`.
pub fn list_stack(
    stack: &mut Vec<Data>,
    prev_defs: &Defs,
    block_exec: &mut BlockExec,
) -> (res: Step)
    ensures
        step_of(*final(stack), *final(block_exec), res) == list_stack_spec(
            list_view(old(stack)@),
            old(block_exec)@,
        ),
{
    let mut list: Vec<Data> = Vec::new();
    core::mem::swap(stack, &mut list);
    stack.push(Data::List(list));
    assert(list_view(stack@) =~= seq![DataModel::List(list_view(old(stack)@))]);
    Ok(Effect::Done)
}

/// `List-swap-stack`: takes a list off the stack; the list becomes the
/// stack, with the rest of the old stack as a list on top.
pub open spec fn list_swap_stack_spec(stack: Seq<DataModel>, local: ExecModel) -> StepModel {
    take_list(
        stack,
        local,
        Builtin::ListSwapStack,
        |items: Seq<DataModel>, rest: Seq<DataModel>| items.push(DataModel::List(rest)),
    )
}

/// Performs `List-swap-stack`.
pub fn list_swap_stack(
    stack: &mut Vec<Data>,
    prev_defs: &Defs,
    block_exec: &mut BlockExec,
) -> (res: Step)
    ensures
        step_of(*final(stack), *final(block_exec), res) == list_swap_stack_spec(
            list_view(old(stack)@),
            old(block_exec)@,
        ),
{
    let list = pop(stack, Builtin::ListSwapStack)?;
    match list {
        Data::List(items) => {
            let mut list = items;
            core::mem::swap(stack, &mut list);
            push(stack, Data::List(list));
            Ok(Effect::Done)
        },
        _ => wrong(Builtin::ListSwapStack, Expected::Kind(Kind::List), list),
    }
}

/// `List-to-stack`: takes a list off the stack and puts its items there,
/// the top one first.
pub open spec fn list_to_stack_spec(stack: Seq<DataModel>, local: ExecModel) -> StepModel {
    take_list(
        stack,
        local,
        Builtin::ListToStack,
        |items: Seq<DataModel>, rest: Seq<DataModel>| rest + items.reverse(),
    )
}

/// Performs `List-to-stack`.
pub fn list_to_stack(
    stack: &mut Vec<Data>,
    prev_defs: &Defs,
    block_exec: &mut BlockExec,
) -> (res: Step)
    ensures
        step_of(*final(stack), *final(block_exec), res) == list_to_stack_spec(
            list_view(old(stack)@),
            old(block_exec)@,
        ),
{
    let list = pop(stack, Builtin::ListToStack)?;
    match list {
        Data::List(items) => {
            let ghost all = items@;
            let ghost rest = stack@;
            let mut items = items;
            loop
                invariant
                    items@.len() <= all.len(),
                    forall|k: int| 0 <= k < items@.len() ==> #[trigger] items@[k] == all[k],
                    stack@.len() == rest.len() + all.len() - items@.len(),
                    forall|k: int| 0 <= k < rest.len() ==> #[trigger] stack@[k] == rest[k],
                    forall|k: int|
                        0 <= k < all.len() - items@.len() ==> #[trigger] stack@[rest.len() + k]
                            == all[all.len() - 1 - k],
                ensures
                    items@.len() == 0,
                decreases items@.len(),
            {
                match items.pop() {
                    None => {
                        break ;
                    },
                    Some(item) => {
                        stack.push(item);
                    },
                }
            }
            assert forall|j: int| rest.len() <= j < stack@.len() implies stack@[j] == all[all.len()
                - 1 - (j - rest.len())] by {
                let k = j - rest.len();
                assert(stack@[rest.len() + k] == all[all.len() - 1 - k]);
            }
            assert(list_view(stack@) =~= list_view(rest) + list_view(all).reverse());
            Ok(Effect::Done)
        },
        _ => wrong(Builtin::ListToStack, Expected::Kind(Kind::List), list),
    }
}

/// A number as an operand for the host.
pub open spec fn scalar(data: DataModel) -> Option<Scalar> {
    match data {
        DataModel::Integer(n) => Some(Scalar::Integer(n)),
        DataModel::Decimal(bits) => Some(Scalar::Decimal(bits)),
        _ => None,
    }
}

fn as_scalar(data: &Data) -> (res: Option<Scalar>)
    ensures
        res == scalar(data@),
{
    match data {
        Data::Integer(n) => Some(Scalar::Integer(*n)),
        Data::Decimal(bits) => Some(Scalar::Decimal(*bits)),
        _ => None,
    }
}

/// The integer `n` if it fits in 64 bits.
pub open spec fn fitting(n: int) -> Result<i64, ErrorModel> {
    if i64::MIN <= n <= i64::MAX {
        Ok(n as i64)
    } else {
        Err(ErrorModel::Overflow)
    }
}

/// The quotient of two integers, rounded towards 0.
pub open spec fn quotient(a: int, b: int) -> int
    recommends
        b != 0,
{
    if a >= 0 && b > 0 {
        a / b
    } else if a < 0 && b < 0 {
        (-a) / (-b)
    } else if a < 0 {
        -((-a) / b)
    } else {
        -(a / (-b))
    }
}

/// The remainder that goes with `quotient`; it has the sign of `a`.
pub open spec fn remainder(a: int, b: int) -> int
    recommends
        b != 0,
{
    if a >= 0 && b > 0 {
        a % b
    } else if a < 0 && b < 0 {
        -((-a) % (-b))
    } else if a < 0 {
        -((-a) % b)
    } else {
        a % (-b)
    }
}

/// What an operation gives on two integers, the first of which was on top of
/// the stack.
pub open spec fn integer_result(op: NumberOp, first: i64, second: i64) -> Result<i64, ErrorModel> {
    match op {
        NumberOp::Add => fitting(first + second),
        NumberOp::Sub => fitting(first - second),
        NumberOp::Mul => fitting(first * second),
        NumberOp::Div => if second == 0 {
            Err(ErrorModel::DivisionByZero)
        } else {
            fitting(quotient(first as int, second as int))
        },
        NumberOp::Rem => if second == 0 {
            Err(ErrorModel::DivisionByZero)
        } else if first == i64::MIN && second == -1 {
            Err(ErrorModel::Overflow)
        } else {
            fitting(remainder(first as int, second as int))
        },
    }
}

/// Computes on two integers.
pub fn integer_arithmetic(op: NumberOp, first: i64, second: i64) -> (res: Result<i64, Error>)
    ensures
        match res {
            Ok(n) => integer_result(op, first, second) == Ok::<i64, ErrorModel>(n),
            Err(error) => integer_result(op, first, second) == Err::<i64, ErrorModel>(error@),
        },
{
    proof {
        let d = second as int;
        if d != 0 {
            assert(0int / d == 0 && 0int % d == 0 && 0int / (-d) == 0 && 0int % (-d) == 0)
                by (nonlinear_arith)
                requires
                    d != 0,
            ;
        }
    }
    let computed = match op {
        NumberOp::Add => first.checked_add(second),
        NumberOp::Sub => first.checked_sub(second),
        NumberOp::Mul => first.checked_mul(second),
        NumberOp::Div => {
            if second == 0 {
                return Err(Error::DivisionByZero);
            }
            first.checked_div(second)
        },
        NumberOp::Rem => {
            if second == 0 {
                return Err(Error::DivisionByZero);
            }
            first.checked_rem(second)
        },
    };
    match computed {
        Some(n) => Ok(n),
        None => Err(Error::Overflow),
    }
}

/// An operation on two numbers: takes them off the stack and puts the result
/// there. Two integers give an integer. Where a decimal is among them the
/// host computes, and the result is a decimal.
pub open spec fn number_binary_spec(
    op: NumberOp,
    stack: Seq<DataModel>,
    local: ExecModel,
) -> StepModel {
    let operation = Builtin::Number(op);
    if stack.len() == 0 {
        underflow(stack, local, operation)
    } else if stack.len() == 1 {
        underflow(stack.drop_last(), local, operation)
    } else {
        let rest = stack.drop_last().drop_last();
        let first = stack.last();
        let second = stack[stack.len() - 2];
        match (first, second) {
            (DataModel::Integer(a), DataModel::Integer(b)) => match integer_result(op, a, b) {
                Ok(n) => done(rest.push(DataModel::Integer(n)), local),
                Err(error) => fail(rest, local, error),
            },
            _ => match (scalar(first), scalar(second)) {
                (Some(x), Some(y)) => ask(
                    rest,
                    local,
                    ActionModel::Arithmetic { op, first: x, second: y },
                ),
                _ => fail(rest, local, ErrorModel::OperandMismatch { operation, first, second }),
            },
        }
    }
}

/// An operation on two numbers.
pub fn number_binary_op(
    op: NumberOp,
    stack: &mut Vec<Data>,
    prev_defs: &Defs,
    block_exec: &mut BlockExec,
) -> (res: Step)
    ensures
        step_of(*final(stack), *final(block_exec), res) == number_binary_spec(
            op,
            list_view(old(stack)@),
            old(block_exec)@,
        ),
{
    let num1 = pop(stack, Builtin::Number(op))?;
    let num2 = pop(stack, Builtin::Number(op))?;
    assert(list_view(stack@) =~= list_view(old(stack)@).drop_last().drop_last());
    match (as_scalar(&num1), as_scalar(&num2)) {
        (Some(Scalar::Integer(i1)), Some(Scalar::Integer(i2))) => {
            let n = integer_arithmetic(op, i1, i2)?;
            push(stack, Data::Integer(n));
            Ok(Effect::Done)
        },
        (Some(first), Some(second)) => Ok(Effect::Ask(Action::Arithmetic { op, first, second })),
        _ => Err(
            Error::OperandMismatch { operation: Builtin::Number(op), first: num1, second: num2 },
        ),
    }
}

/// 1 for true, 0 for false.
pub open spec fn truth(b: bool) -> i64 {
    if b {
        1
    } else {
        0
    }
}

/// What an operation on integers alone gives, the first of which was on top
/// of the stack.
pub open spec fn integer_op_result(op: IntegerOp, first: i64, second: i64) -> i64 {
    match op {
        IntegerOp::And => first & second,
        IntegerOp::Xor => first ^ second,
        IntegerOp::Or => first | second,
        IntegerOp::Eq => truth(first == second),
        IntegerOp::Ne => truth(first != second),
        IntegerOp::Lt => truth(first < second),
        IntegerOp::Le => truth(first <= second),
        IntegerOp::Gt => truth(first > second),
        IntegerOp::Ge => truth(first >= second),
    }
}

/// Computes on two integers where nothing can go wrong.
pub fn integer_operation(op: IntegerOp, first: i64, second: i64) -> (res: i64)
    ensures
        res == integer_op_result(op, first, second),
{
    match op {
        IntegerOp::And => first & second,
        IntegerOp::Xor => first ^ second,
        IntegerOp::Or => first | second,
        IntegerOp::Eq => if first == second {
            1
        } else {
            0
        },
        IntegerOp::Ne => if first != second {
            1
        } else {
            0
        },
        IntegerOp::Lt => if first < second {
            1
        } else {
            0
        },
        IntegerOp::Le => if first <= second {
            1
        } else {
            0
        },
        IntegerOp::Gt => if first > second {
            1
        } else {
            0
        },
        IntegerOp::Ge => if first >= second {
            1
        } else {
            0
        },
    }
}

/// An operation on two integers: takes them off the stack and puts the
/// result there.
pub open spec fn integer_binary_spec(
    op: IntegerOp,
    stack: Seq<DataModel>,
    local: ExecModel,
) -> StepModel {
    let operation = Builtin::Integer(op);
    if stack.len() == 0 {
        underflow(stack, local, operation)
    } else if stack.len() == 1 {
        underflow(stack.drop_last(), local, operation)
    } else {
        let rest = stack.drop_last().drop_last();
        let first = stack.last();
        let second = stack[stack.len() - 2];
        match (first, second) {
            (DataModel::Integer(a), DataModel::Integer(b)) => done(
                rest.push(DataModel::Integer(integer_op_result(op, a, b))),
                local,
            ),
            _ => fail(rest, local, ErrorModel::OperandMismatch { operation, first, second }),
        }
    }
}

/// An operation on two integers.
pub fn integer_binary_op(
    op: IntegerOp,
    stack: &mut Vec<Data>,
    prev_defs: &Defs,
    block_exec: &mut BlockExec,
) -> (res: Step)
    ensures
        step_of(*final(stack), *final(block_exec), res) == integer_binary_spec(
            op,
            list_view(old(stack)@),
            old(block_exec)@,
        ),
{
    let num1 = pop(stack, Builtin::Integer(op))?;
    let num2 = pop(stack, Builtin::Integer(op))?;
    assert(list_view(stack@) =~= list_view(old(stack)@).drop_last().drop_last());
    match (&num1, &num2) {
        (Data::Integer(i1), Data::Integer(i2)) => {
            push(stack, Data::Integer(integer_operation(op, *i1, *i2)));
            Ok(Effect::Done)
        },
        _ => Err(
            Error::OperandMismatch { operation: Builtin::Integer(op), first: num1, second: num2 },
        ),
    }
}

/// `Neg`: takes a number off the stack and puts there its negative, that of
/// a decimal by the host's doing.
pub open spec fn neg_spec(stack: Seq<DataModel>, local: ExecModel) -> StepModel {
    if stack.len() == 0 {
        underflow(stack, local, Builtin::Neg)
    } else {
        let rest = stack.drop_last();
        match stack.last() {
            DataModel::Integer(n) => match fitting(-n) {
                Ok(negative) => done(rest.push(DataModel::Integer(negative)), local),
                Err(error) => fail(rest, local, error),
            },
            DataModel::Decimal(bits) => ask(rest, local, ActionModel::Negate(bits)),
            found => mismatch(rest, local, Builtin::Neg, Expected::Number, found),
        }
    }
}

/// The negative of a number.
pub fn number_unary_op(
    stack: &mut Vec<Data>,
    prev_defs: &Defs,
    block_exec: &mut BlockExec,
) -> (res: Step)
    ensures
        step_of(*final(stack), *final(block_exec), res) == neg_spec(
            list_view(old(stack)@),
            old(block_exec)@,
        ),
{
    let num1 = pop(stack, Builtin::Neg)?;
    match num1 {
        Data::Integer(i1) => {
            if i1 == i64::MIN {
                Err(Error::Overflow)
            } else {
                push(stack, Data::Integer(-i1));
                Ok(Effect::Done)
            }
        },
        Data::Decimal(bits) => Ok(Effect::Ask(Action::Negate(bits))),
        _ => wrong(Builtin::Neg, Expected::Number, num1),
    }
}

/// `To-bool`, and `Not` where `negated`: takes an integer off the stack and
/// puts there 1 or 0, as the integer is or is not 0.
pub open spec fn to_bool_spec(stack: Seq<DataModel>, local: ExecModel, negated: bool) -> StepModel {
    let operation = if negated {
        Builtin::Not
    } else {
        Builtin::ToBool
    };
    if stack.len() == 0 {
        underflow(stack, local, operation)
    } else {
        let rest = stack.drop_last();
        match stack.last() {
            DataModel::Integer(n) => done(
                rest.push(DataModel::Integer(truth((n == 0) == negated))),
                local,
            ),
            found => mismatch(rest, local, operation, Expected::Kind(Kind::Integer), found),
        }
    }
}

/// Whether an integer is 0 or, where `negated`, is not.
pub fn integer_unary_op(
    negated: bool,
    stack: &mut Vec<Data>,
    prev_defs: &Defs,
    block_exec: &mut BlockExec,
) -> (res: Step)
    ensures
        step_of(*final(stack), *final(block_exec), res) == to_bool_spec(
            list_view(old(stack)@),
            old(block_exec)@,
            negated,
        ),
{
    let operation = if negated {
        Builtin::Not
    } else {
        Builtin::ToBool
    };
    let num1 = pop(stack, operation)?;
    match num1 {
        Data::Integer(n) => {
            if (n == 0) == negated {
                push(stack, Data::Integer(1));
            } else {
                push(stack, Data::Integer(0));
            }
            Ok(Effect::Done)
        },
        _ => wrong(operation, Expected::Kind(Kind::Integer), num1),
    }
}

/// What each native operation does.
pub open spec fn apply(
    func: Builtin,
    stack: Seq<DataModel>,
    prev: Env,
    local: ExecModel,
) -> StepModel {
    match func {
        Builtin::DefFn => def_fn_spec(stack, local),
        Builtin::Def => def_spec(stack, local),
        Builtin::If => if_spec(stack, local),
        Builtin::Do => do_spec(stack, local),
        Builtin::DoLocal => do_local_spec(stack, local),
        Builtin::GetFn => get_fn_spec(stack, prev, local),
        Builtin::GetDef => get_def_spec(stack, prev, local),
        Builtin::HasDef => has_def_spec(stack, prev, local),
        Builtin::Print => print_spec(stack, local),
        Builtin::Debug => debug_spec(stack, local),
        Builtin::Timer => timer_spec(stack, local),
        Builtin::Assert => assert_spec(stack, local),
        Builtin::UseFile => use_file_spec(stack, local, false),
        Builtin::TryUseFile => use_file_spec(stack, local, true),
        Builtin::AnyAssert => any_assert_spec(stack, local),
        Builtin::AnyCheck => any_check_spec(stack, local),
        Builtin::Drop => drop_spec(stack, local),
        Builtin::NewExt => new_external_spec(stack, local),
        Builtin::UseExt => use_external_spec(stack, local),
        Builtin::TypeAssert(kind) => type_assert_spec(stack, local, kind),
        Builtin::TypeCheck(kind) => type_check_spec(stack, local, kind),
        Builtin::ToInteger => to_integer_spec(stack, local),
        Builtin::ToDecimal => to_decimal_spec(stack, local),
        Builtin::ToString => to_string_spec(stack, local),
        Builtin::ToList => to_list_spec(stack, local),
        Builtin::StringJoin => string_join_spec(stack, local),
        Builtin::StringChars => string_chars_spec(stack, local),
        Builtin::List => list_spec(stack, local),
        Builtin::ListReverse => list_reverse_spec(stack, local),
        Builtin::ListStack => list_stack_spec(stack, local),
        Builtin::ListSwapStack => list_swap_stack_spec(stack, local),
        Builtin::ListToStack => list_to_stack_spec(stack, local),
        Builtin::Number(op) => number_binary_spec(op, stack, local),
        Builtin::Integer(op) => integer_binary_spec(op, stack, local),
        Builtin::Neg => neg_spec(stack, local),
        Builtin::ToBool => to_bool_spec(stack, local, false),
        Builtin::Not => to_bool_spec(stack, local, true),
    }
}

/// Performs a native operation.
pub fn dispatch(
    func: Builtin,
    stack: &mut Vec<Data>,
    prev_defs: &Defs,
    block_exec: &mut BlockExec,
) -> (res: Step)
    ensures
        step_of(*final(stack), *final(block_exec), res) == apply(
            func,
            list_view(old(stack)@),
            prev_defs@,
            old(block_exec)@,
        ),
{
    match func {
        Builtin::DefFn => def_fn(stack, prev_defs, block_exec),
        Builtin::Def => def(stack, prev_defs, block_exec),
        Builtin::If => _if(stack, prev_defs, block_exec),
        Builtin::Do => _do(stack, prev_defs, block_exec),
        Builtin::DoLocal => _do_local(stack, prev_defs, block_exec),
        Builtin::GetFn => get_fn(stack, prev_defs, block_exec),
        Builtin::GetDef => get_def(stack, prev_defs, block_exec),
        Builtin::HasDef => has_def(stack, prev_defs, block_exec),
        Builtin::Print => print(stack, prev_defs, block_exec),
        Builtin::Debug => debug(stack, prev_defs, block_exec),
        Builtin::Timer => timer(stack, prev_defs, block_exec),
        Builtin::Assert => _assert(stack, prev_defs, block_exec),
        Builtin::UseFile => use_file(stack, prev_defs, block_exec),
        Builtin::TryUseFile => try_use_file(stack, prev_defs, block_exec),
        Builtin::AnyAssert => any_assert(stack, prev_defs, block_exec),
        Builtin::AnyCheck => any_check(stack, prev_defs, block_exec),
        Builtin::Drop => drop(stack, prev_defs, block_exec),
        Builtin::NewExt => new_external(stack, prev_defs, block_exec),
        Builtin::UseExt => use_external(stack, prev_defs, block_exec),
        Builtin::TypeAssert(kind) => type_assert(kind, stack, prev_defs, block_exec),
        Builtin::TypeCheck(kind) => type_check(kind, stack, prev_defs, block_exec),
        Builtin::ToInteger => to_integer(stack, prev_defs, block_exec),
        Builtin::ToDecimal => to_decimal(stack, prev_defs, block_exec),
        Builtin::ToString => to_string(stack, prev_defs, block_exec),
        Builtin::ToList => to_list(stack, prev_defs, block_exec),
        Builtin::StringJoin => string_join(stack, prev_defs, block_exec),
        Builtin::StringChars => string_chars(stack, prev_defs, block_exec),
        Builtin::List => list(stack, prev_defs, block_exec),
        Builtin::ListReverse => list_reverse(stack, prev_defs, block_exec),
        Builtin::ListStack => list_stack(stack, prev_defs, block_exec),
        Builtin::ListSwapStack => list_swap_stack(stack, prev_defs, block_exec),
        Builtin::ListToStack => list_to_stack(stack, prev_defs, block_exec),
        Builtin::Number(op) => number_binary_op(op, stack, prev_defs, block_exec),
        Builtin::Integer(op) => integer_binary_op(op, stack, prev_defs, block_exec),
        Builtin::Neg => number_unary_op(stack, prev_defs, block_exec),
        Builtin::ToBool => integer_unary_op(false, stack, prev_defs, block_exec),
        Builtin::Not => integer_unary_op(true, stack, prev_defs, block_exec),
    }
}

/// The operations that `base` registers, in the order in which it does.
/// A check of a kind comes after the assertion of that kind and takes its
/// name from it.
pub open spec fn base_table() -> Seq<Builtin> {
    seq![
        Builtin::DefFn,
        Builtin::Def,
        Builtin::If,
        Builtin::Do,
        Builtin::DoLocal,
        Builtin::GetFn,
        Builtin::GetDef,
        Builtin::HasDef,
        Builtin::Print,
        Builtin::Debug,
        Builtin::Timer,
        Builtin::Assert,
        Builtin::UseFile,
        Builtin::TryUseFile,
        Builtin::AnyAssert,
        Builtin::AnyCheck,
        Builtin::Drop,
        Builtin::NewExt,
        Builtin::UseExt,
        Builtin::TypeAssert(Kind::String),
        Builtin::TypeAssert(Kind::Integer),
        Builtin::TypeAssert(Kind::Decimal),
        Builtin::TypeAssert(Kind::List),
        Builtin::TypeAssert(Kind::Dict),
        Builtin::TypeAssert(Kind::Box),
        Builtin::TypeAssert(Kind::Block),
        Builtin::TypeAssert(Kind::Fn),
        Builtin::TypeAssert(Kind::External),
        Builtin::TypeCheck(Kind::String),
        Builtin::TypeCheck(Kind::Integer),
        Builtin::TypeCheck(Kind::Decimal),
        Builtin::TypeCheck(Kind::List),
        Builtin::TypeCheck(Kind::Dict),
        Builtin::TypeCheck(Kind::Box),
        Builtin::TypeCheck(Kind::Block),
        Builtin::TypeCheck(Kind::Fn),
        Builtin::TypeCheck(Kind::External),
        Builtin::ToInteger,
        Builtin::ToDecimal,
        Builtin::ToString,
        Builtin::ToList,
        Builtin::StringJoin,
        Builtin::StringChars,
        Builtin::List,
        Builtin::ListReverse,
        Builtin::ListStack,
    ]
}

/// The operations that `math_and_logic` registers, in the order in which it
/// does.
pub open spec fn math_table() -> Seq<Builtin> {
    seq![
        Builtin::Number(NumberOp::Add),
        Builtin::Number(NumberOp::Sub),
        Builtin::Number(NumberOp::Mul),
        Builtin::Number(NumberOp::Div),
        Builtin::Number(NumberOp::Rem),
        Builtin::Integer(IntegerOp::And),
        Builtin::Integer(IntegerOp::Xor),
        Builtin::Integer(IntegerOp::Or),
        Builtin::Integer(IntegerOp::Eq),
        Builtin::Integer(IntegerOp::Ne),
        Builtin::Integer(IntegerOp::Lt),
        Builtin::Integer(IntegerOp::Le),
        Builtin::Integer(IntegerOp::Gt),
        Builtin::Integer(IntegerOp::Ge),
        Builtin::Integer(IntegerOp::Ge),
        Builtin::Neg,
        Builtin::ToBool,
        Builtin::Not,
    ]
}

/// `defs` with each operation of `table` bound to its name behind `prefix`;
/// a later one replaces an earlier one of the same name.
pub open spec fn registered(
    defs: Env,
    prefix: Seq<char>,
    table: Seq<Builtin>,
) -> Env
    decreases table.len(),
{
    if table.len() == 0 {
        defs
    } else {
        registered(defs, prefix, table.drop_last()).insert(
            prefix + builtin_name(table.last()),
            DataModel::BuiltinFunc(table.last()),
        )
    }
}

fn register(defs: Defs, prefix: &str, table: Vec<Builtin>) -> (res: Defs)
    ensures
        res@ == registered(defs@, prefix@, table@),
{
    let mut defs = defs;
    let ghost start = defs@;
    let mut i: usize = 0;
    assert(table@.take(0) =~= Seq::empty());
    while i < table.len()
        invariant
            i <= table.len(),
            defs@ == registered(start, prefix@, table@.take(i as int)),
        decreases table.len() - i,
    {
        let func = table[i];
        let mut name = prefix.to_string();
        name.append(func.name());
        proof {
            assert(table@.take(i + 1).drop_last() =~= table@.take(i as int));
        }
        defs.insert(name, Data::BuiltinFunc(func));
        i += 1;
    }
    assert(table@.take(i as int) =~= table@);
    defs
}

/// Adds the basic operations to `defs`, each under its name behind `prefix`.
pub fn base(defs: Defs, prefix: &str) -> (res: Defs)
    ensures
        res@ == registered(defs@, prefix@, base_table()),
{
    let table = vec![
        Builtin::DefFn,
        Builtin::Def,
        Builtin::If,
        Builtin::Do,
        Builtin::DoLocal,
        Builtin::GetFn,
        Builtin::GetDef,
        Builtin::HasDef,
        Builtin::Print,
        Builtin::Debug,
        Builtin::Timer,
        Builtin::Assert,
        Builtin::UseFile,
        Builtin::TryUseFile,
        Builtin::AnyAssert,
        Builtin::AnyCheck,
        Builtin::Drop,
        Builtin::NewExt,
        Builtin::UseExt,
        Builtin::TypeAssert(Kind::String),
        Builtin::TypeAssert(Kind::Integer),
        Builtin::TypeAssert(Kind::Decimal),
        Builtin::TypeAssert(Kind::List),
        Builtin::TypeAssert(Kind::Dict),
        Builtin::TypeAssert(Kind::Box),
        Builtin::TypeAssert(Kind::Block),
        Builtin::TypeAssert(Kind::Fn),
        Builtin::TypeAssert(Kind::External),
        Builtin::TypeCheck(Kind::String),
        Builtin::TypeCheck(Kind::Integer),
        Builtin::TypeCheck(Kind::Decimal),
        Builtin::TypeCheck(Kind::List),
        Builtin::TypeCheck(Kind::Dict),
        Builtin::TypeCheck(Kind::Box),
        Builtin::TypeCheck(Kind::Block),
        Builtin::TypeCheck(Kind::Fn),
        Builtin::TypeCheck(Kind::External),
        Builtin::ToInteger,
        Builtin::ToDecimal,
        Builtin::ToString,
        Builtin::ToList,
        Builtin::StringJoin,
        Builtin::StringChars,
        Builtin::List,
        Builtin::ListReverse,
        Builtin::ListStack,
    ];
    assert(table@ =~= base_table());
    register(defs, prefix, table)
}

/// Adds the operations on numbers to `defs`, each under its name behind
/// `prefix`, and the integers 1 and 0 under `True` and `False`.
pub fn math_and_logic(defs: Defs, prefix: &str) -> (res: Defs)
    ensures
        res@ == registered(defs@, prefix@, math_table()).insert(
            prefix@ + "True"@,
            DataModel::Integer(1),
        ).insert(prefix@ + "False"@, DataModel::Integer(0)),
{
    let table = vec![
        Builtin::Number(NumberOp::Add),
        Builtin::Number(NumberOp::Sub),
        Builtin::Number(NumberOp::Mul),
        Builtin::Number(NumberOp::Div),
        Builtin::Number(NumberOp::Rem),
        Builtin::Integer(IntegerOp::And),
        Builtin::Integer(IntegerOp::Xor),
        Builtin::Integer(IntegerOp::Or),
        Builtin::Integer(IntegerOp::Eq),
        Builtin::Integer(IntegerOp::Ne),
        Builtin::Integer(IntegerOp::Lt),
        Builtin::Integer(IntegerOp::Le),
        Builtin::Integer(IntegerOp::Gt),
        Builtin::Integer(IntegerOp::Ge),
        Builtin::Integer(IntegerOp::Ge),
        Builtin::Neg,
        Builtin::ToBool,
        Builtin::Not,
    ];
    assert(table@ =~= math_table());
    let mut defs = register(defs, prefix, table);
    let mut name = prefix.to_string();
    name.append("True");
    defs.insert(name, Data::Integer(1));
    let mut name = prefix.to_string();
    name.append("False");
    defs.insert(name, Data::Integer(0));
    defs
}

} // verus!
