//! What holds of the engine whatever the program: the laws of scoping,
//! capture and evaluation order, each proved from the definitions that the
//! contracts of the executable functions use.

use vstd::prelude::*;
use crate::ast::{NodeModel, run_order};
use crate::render::{digit, digits, integer_text};
use crate::run_tree::{marked, with_name, with_names};
use crate::text::{digit_value, integer_of, natural_of};
use crate::builtins::def_spec;
use crate::data::{ClosureModel, DataModel, Env};
use crate::effect::{EffectModel, WorkModel};
use crate::error::ErrorModel;
use crate::effect::OutcomeModel;
use crate::interpreter::{
    ExecModel, FrameModel, MachineModel, StepModel, Turn, callee, capture, code_of, done, eval,
    fail, first_unresolved, frame_step, resolve, run, snapshot, start, turn, unwind_calls,
    unwind_work,
};
use crate::parser::{flat, in_order};
use crate::run_tree::{BlockModel, ExpModel, compile, compile_chain, compile_node};

verus! {

/// The chain that the parser builds from statements runs each statement
/// backwards, and the statements one after the other as they were written.
pub proof fn law_statements_run_in_order<T>(lines: Seq<Seq<T>>)
    ensures
        flat(lines).reverse() == in_order(lines),
    decreases lines.len(),
{
    if lines.len() == 0 {
        assert(flat(lines).reverse() =~= in_order(lines));
    } else {
        law_statements_run_in_order(lines.drop_last());
        let head = lines.last();
        let tail = flat(lines.drop_last());
        assert((head + tail).reverse() =~= tail.reverse() + head.reverse());
    }
}

/// A single statement `e1 e2 e3` runs as `e3`, `e2`, `e1`.
pub proof fn law_single_statement_runs_backwards<T>(statement: Seq<T>)
    ensures
        flat(seq![statement]).reverse() == statement.reverse(),
{
    law_statements_run_in_order(seq![statement]);
    assert(seq![statement].drop_last() =~= Seq::<Seq<T>>::empty());
    assert(in_order(seq![statement].drop_last()) =~= Seq::<T>::empty());
    assert(in_order(seq![statement]) =~= statement.reverse());
}

/// Of two statements, all of the first runs, backwards, before any of the
/// second.
pub proof fn law_first_statement_runs_first<T>(first: Seq<T>, second: Seq<T>)
    ensures
        flat(seq![first, second]).reverse() == first.reverse() + second.reverse(),
{
    law_statements_run_in_order(seq![first, second]);
    assert(seq![first, second].drop_last() =~= seq![first]);
    assert(seq![first].drop_last() =~= Seq::<Seq<T>>::empty());
    assert(in_order(seq![first].drop_last()) =~= Seq::<T>::empty());
    assert(in_order(seq![first]) =~= first.reverse());
    assert(in_order(seq![first, second]) =~= first.reverse() + second.reverse());
}

/// The run tree keeps the chain of the syntax tree node for node, so its
/// expressions run in the order in which the chain's nodes do.
pub proof fn law_run_tree_keeps_order(chain: Seq<NodeModel>)
    ensures
        compile(chain).exps == chain.map_values(|node: NodeModel| compile_node(node)),
        compile(chain).run_order() == run_order(chain).map_values(
            |node: NodeModel| compile_node(node),
        ),
{
    let image = |node: NodeModel| compile_node(node);
    assert(compile(chain).exps =~= chain.map_values(image));
    assert(compile(chain).run_order() =~= run_order(chain).map_values(image));
}

/// A frame that has `pc` expressions of a block left runs the one that is
/// number `len - pc` in the block's run order, and has `pc - 1` left.
pub proof fn law_code_runs_in_run_order(
    block: BlockModel,
    pc: nat,
    stack: Seq<DataModel>,
    prev: Env,
    local: ExecModel,
)
    requires
        0 < pc <= block.exps.len(),
        local.work.len() > 0,
        local.work.last() == (WorkModel::Code { block, pc }),
    ensures
        frame_step(stack, prev, local) == eval(
            block.run_order()[block.exps.len() - pc],
            stack,
            prev,
            ExecModel {
                work: local.work.drop_last().push(
                    WorkModel::Code { block, pc: (pc - 1) as nat },
                ),
                ..local
            },
        ),
{
}

/// A closure freezes what it captures: the snapshot holds, for each captured
/// name, the value that the name had where the closure was made, and inside
/// the closure the name resolves to that value whoever calls it, and whatever
/// the name is bound to by then.
pub proof fn law_capture_freezes(
    block: BlockModel,
    name: Seq<char>,
    stack: Seq<DataModel>,
    prev: Env,
    local: ExecModel,
    caller_defs: Env,
    caller_prev: Env,
)
    requires
        block.captures.contains(name),
        eval(ExpModel::Block(block), stack, prev, local).result is Ok,
    ensures
        eval(ExpModel::Block(block), stack, prev, local).stack.last() matches DataModel::Block(
            closure,
        ) && {
            let frame = callee(caller_defs, caller_prev, closure);
            &&& closure.block == block
            &&& resolve(local.defs, prev, name) == Some(closure.captured[name])
            &&& resolve(frame.local.defs, frame.prev_defs, name) == resolve(local.defs, prev, name)
        },
{
    lemma_first_unresolved(block.captures, local.defs, prev);
}

/// Inside a call every name resolves as it did for the caller when the call
/// was made, unless the closure's snapshot holds the name. So a name that
/// nothing defined for the caller at that time, and that the closure did not
/// capture, is not defined inside the call.
pub proof fn law_callee_sees_caller(
    defs: Env,
    prev: Env,
    closure: ClosureModel,
    name: Seq<char>,
)
    ensures
        ({
            let frame = callee(defs, prev, closure);
            resolve(frame.local.defs, frame.prev_defs, name) == if closure.captured.contains_key(
                name,
            ) {
                Some(closure.captured[name])
            } else {
                resolve(defs, prev, name)
            }
        }),
        resolve(defs, prev, name) is None && !closure.captured.contains_key(name) ==> resolve(
            callee(defs, prev, closure).local.defs,
            callee(defs, prev, closure).prev_defs,
            name,
        ) is None,
{
}

/// Naming what nothing defines fails, and leaves the stack and the frame as
/// they were.
pub proof fn law_undefined_name_fails(
    name: Seq<char>,
    stack: Seq<DataModel>,
    prev: Env,
    local: ExecModel,
)
    requires
        !local.defs.contains_key(name),
        !prev.contains_key(name),
    ensures
        eval(ExpModel::Var(name), stack, prev, local) == fail(
            stack,
            local,
            ErrorModel::NameNotFound(name),
        ),
{
}

/// The value that a literal stands for.
pub open spec fn literal(exp: ExpModel) -> DataModel
    recommends
        !(exp is Var) && !(exp is Block),
{
    match exp {
        ExpModel::Integer(n) => DataModel::Integer(n),
        ExpModel::Decimal(bits) => DataModel::Decimal(bits),
        ExpModel::String(text) => DataModel::String(text),
        _ => arbitrary(),
    }
}

/// A literal goes on the stack as it is: what is then on top is the
/// literal's value, and below it the stack is as it was.
pub proof fn law_literal_round_trip(
    exp: ExpModel,
    stack: Seq<DataModel>,
    prev: Env,
    local: ExecModel,
)
    requires
        exp is Integer || exp is Decimal || exp is String,
    ensures
        eval(exp, stack, prev, local) == done(stack.push(literal(exp)), local),
        eval(exp, stack, prev, local).stack.last() == literal(exp),
        eval(exp, stack, prev, local).stack.drop_last() == stack,
{
    assert(stack.push(literal(exp)).drop_last() =~= stack);
}

/// A value bound to a name with `Def` comes back when the name is used,
/// unless it is a function or a native operation, which run instead.
pub proof fn law_def_round_trip(
    name: Seq<char>,
    data: DataModel,
    stack: Seq<DataModel>,
    prev: Env,
    local: ExecModel,
)
    requires
        !(data is Fn),
        !(data is BuiltinFunc),
    ensures
        ({
            let bound = def_spec(stack.push(data).push(DataModel::String(name)), local);
            &&& bound.result == Ok::<EffectModel, ErrorModel>(EffectModel::Done)
            &&& bound.stack == stack
            &&& eval(ExpModel::Var(name), bound.stack, prev, bound.local) == done(
                stack.push(data),
                bound.local,
            )
        }),
{
    let full = stack.push(data).push(DataModel::String(name));
    assert(full.drop_last() =~= stack.push(data));
    assert(stack.push(data).drop_last() =~= stack);
}

/// `first_unresolved` finds a name exactly when one of the names does not
/// resolve, and the name it finds is such a name.
pub proof fn lemma_first_unresolved(
    names: Seq<Seq<char>>,
    defs: Env,
    prev: Env,
)
    ensures
        first_unresolved(names, defs, prev) is None <==> forall|name: Seq<char>|
            names.contains(name) ==> resolve(defs, prev, name) is Some,
        first_unresolved(names, defs, prev) matches Some(name) ==> names.contains(name) && resolve(
            defs,
            prev,
            name,
        ) is None,
    decreases names.len(),
{
    if names.len() > 0 {
        let rest = names.drop_first();
        lemma_first_unresolved(rest, defs, prev);
        assert(names.contains(names[0]));
        assert forall|name: Seq<char>| rest.contains(name) implies names.contains(name) by {
            let j = choose|j: int| 0 <= j < rest.len() && rest[j] == name;
            assert(names[j + 1] == name);
        }
        if resolve(defs, prev, names[0]) is Some && first_unresolved(rest, defs, prev) is None {
            assert forall|name: Seq<char>| names.contains(name) implies resolve(
                defs,
                prev,
                name,
            ) is Some by {
                let j = choose|j: int| 0 <= j < names.len() && names[j] == name;
                if j > 0 {
                    assert(rest[j - 1] == name);
                    assert(rest.contains(name));
                }
            }
        }
    }
}

/// A block literal that marks a name which nothing defines makes no closure:
/// evaluating the literal fails, before anything could call the block, and
/// the stack and the frame stay as they were.
pub proof fn law_capture_of_undefined_fails(
    block: BlockModel,
    name: Seq<char>,
    stack: Seq<DataModel>,
    prev: Env,
    local: ExecModel,
)
    requires
        block.captures.contains(name),
        resolve(local.defs, prev, name) is None,
    ensures
        eval(ExpModel::Block(block), stack, prev, local).result matches Err(
            ErrorModel::CaptureResolutionFailure(missing),
        ) && block.captures.contains(missing) && resolve(local.defs, prev, missing) is None,
        eval(ExpModel::Block(block), stack, prev, local).stack == stack,
        eval(ExpModel::Block(block), stack, prev, local).local == local,
{
    lemma_first_unresolved(block.captures, local.defs, prev);
}


/// Adding names in turn keeps a list without repeats so, and the list then
/// holds what it held and what was added.
pub proof fn lemma_with_names(names: Seq<Seq<char>>, marks: Seq<Seq<char>>)
    requires
        names.no_duplicates(),
    ensures
        with_names(names, marks).no_duplicates(),
        forall|name: Seq<char>|
            with_names(names, marks).contains(name) <==> names.contains(name) || marks.contains(
                name,
            ),
    decreases marks.len(),
{
    if marks.len() > 0 {
        let next = with_name(names, marks[0]);
        let rest = marks.drop_first();
        assert(next.no_duplicates()) by {
            if !names.contains(marks[0]) {
                assert forall|i: int, j: int|
                    0 <= i < next.len() && 0 <= j < next.len() && i != j implies next[i]
                    != next[j] by {
                    if i == names.len() {
                        assert(names.contains(next[j]));
                    }
                    if j == names.len() {
                        assert(names.contains(next[i]));
                    }
                }
            }
        }
        lemma_with_names(next, rest);
        assert forall|name: Seq<char>|
            with_names(names, marks).contains(name) <==> names.contains(name) || marks.contains(
                name,
            ) by {
            if names.contains(name) {
                let i = choose|i: int| 0 <= i < names.len() && names[i] == name;
                assert(next[i] == name);
            }
            if next.contains(name) && !names.contains(name) {
                let i = choose|i: int| 0 <= i < next.len() && next[i] == name;
                assert(i == names.len());
                assert(marks[0] == name);
            }
            if name == marks[0] {
                if !names.contains(name) {
                    assert(next[names.len() as int] == name);
                }
            }
            if rest.contains(name) {
                let i = choose|i: int| 0 <= i < rest.len() && rest[i] == name;
                assert(marks[i + 1] == name);
            }
            if marks.contains(name) && name != marks[0] {
                let i = choose|i: int| 0 <= i < marks.len() && marks[i] == name;
                assert(rest[i - 1] == name);
            }
        }
    }
}

/// The marks of a chain are the names of its own captured-name nodes.
pub proof fn lemma_marked(chain: Seq<NodeModel>, name: Seq<char>)
    ensures
        marked(chain).contains(name) <==> chain.contains(NodeModel::CapturedVar(name)),
    decreases chain.len(),
{
    if chain.len() > 0 {
        let rest = chain.drop_first();
        lemma_marked(rest, name);
        let node = NodeModel::CapturedVar(name);
        if rest.contains(node) {
            let i = choose|i: int| 0 <= i < rest.len() && rest[i] == node;
            assert(chain[i + 1] == node);
        }
        if chain.contains(node) && chain[0] != node {
            let i = choose|i: int| 0 <= i < chain.len() && chain[i] == node;
            assert(rest[i - 1] == node);
        }
        let rest_marks = marked(rest);
        match chain[0] {
            NodeModel::CapturedVar(first) => {
                let marks = seq![first] + rest_marks;
                assert(marks[0] == first);
                if rest_marks.contains(name) {
                    let i = choose|i: int| 0 <= i < rest_marks.len() && rest_marks[i] == name;
                    assert(marks[i + 1] == name);
                }
                if marks.contains(name) && first != name {
                    let i = choose|i: int| 0 <= i < marks.len() && marks[i] == name;
                    assert(rest_marks[i - 1] == name);
                }
            },
            _ => {},
        }
    }
}

/// The capture set of a block holds each name once, and holds a name
/// exactly if the block's own chain marks it. So a name that only a nested
/// block marks is not in it, and neither is a name that is only used.
pub proof fn law_capture_set(chain: Seq<NodeModel>, name: Seq<char>)
    ensures
        compile(chain).captures.no_duplicates(),
        compile(chain).captures.contains(name) <==> chain.contains(NodeModel::CapturedVar(name)),
{
    lemma_with_names(Seq::empty(), marked(chain));
    lemma_marked(chain, name);
}

/// Every digit has the value it is the digit of.
pub proof fn lemma_digit_value(d: nat)
    requires
        d < 10,
    ensures
        digit_value(digit(d)) == Some(d),
{
}

/// The digits of a number spell the number, and none of them is a sign.
pub proof fn lemma_digits_spell(n: nat)
    ensures
        natural_of(digits(n)) == Some(n),
        digits(n).len() > 0,
        digits(n)[0] != '-',
        digits(n)[0] != '+',
    decreases n,
{
    if n < 10 {
        lemma_digit_value(n);
        assert(digits(n).drop_last() =~= Seq::<char>::empty());
        assert(natural_of(Seq::<char>::empty()) == Some(0nat));
        assert(digits(n).last() == digit(n));
    } else {
        lemma_digits_spell(n / 10);
        lemma_digit_value(n % 10);
        assert(digits(n).drop_last() =~= digits(n / 10));
        assert(digits(n).last() == digit(n % 10));
        assert(digits(n)[0] == digits(n / 10)[0]);
    }
}

/// An integer is rendered in a form that reads back as the same integer.
pub proof fn law_integer_text_reads_back(n: i64)
    ensures
        integer_of(integer_text(n as int)) == Some(n),
{
    if n < 0 {
        lemma_digits_spell((-n) as nat);
        assert(integer_text(n as int).drop_first() =~= digits((-n) as nat));
    } else {
        lemma_digits_spell(n as nat);
    }
}


/// Whether an expression is a literal that stands for itself.
pub open spec fn is_literal(exp: ExpModel) -> bool {
    exp is Integer || exp is Decimal || exp is String
}

/// The values of the first `pc` expressions, the last of them first.
pub open spec fn pushed(exps: Seq<ExpModel>, pc: nat) -> Seq<DataModel> {
    Seq::new(pc, |i: int| literal(exps[pc - 1 - i]))
}

/// The root frame with `pc` literals left to run runs them in `pc` steps,
/// each of which puts one value on the stack.
pub proof fn lemma_literals_run(m: MachineModel, block: BlockModel, pc: nat, budget: nat)
    requires
        m.calls.len() == 0,
        m.root.work.len() > 0,
        m.root.work.last() == (WorkModel::Code { block, pc }),
        pc <= block.exps.len(),
        forall|i: int| 0 <= i < pc ==> is_literal(#[trigger] block.exps[i]),
    ensures
        run(m, pc + budget) == run(
            MachineModel {
                stack: m.stack + pushed(block.exps, pc),
                root: ExecModel {
                    work: m.root.work.drop_last().push(WorkModel::Code { block, pc: 0 }),
                    ..m.root
                },
                ..m
            },
            budget,
        ),
    decreases pc,
{
    let rest = m.root.work.drop_last();
    if pc == 0 {
        assert(m.stack + pushed(block.exps, 0) =~= m.stack);
        assert(rest.push(WorkModel::Code { block, pc: 0 }) =~= m.root.work);
    } else {
        let exp = block.exps[pc - 1];
        assert(is_literal(exp));
        let after = MachineModel {
            stack: m.stack.push(literal(exp)),
            root: ExecModel {
                work: rest.push(WorkModel::Code { block, pc: (pc - 1) as nat }),
                ..m.root
            },
            ..m
        };
        assert(turn(m) == Turn::Go(after));
        assert(run(m, pc + budget) == run(after, (pc - 1 + budget) as nat));
        assert(after.root.work.drop_last() =~= rest);
        lemma_literals_run(after, block, (pc - 1) as nat, budget);
        assert(after.stack + pushed(block.exps, (pc - 1) as nat) =~= m.stack + pushed(
            block.exps,
            pc,
        ));
    }
}

/// A program of literals alone runs to its end and leaves the values of its
/// expressions on the stack in the order in which they run: the value of the
/// expression that is last in the chain lies deepest.
pub proof fn law_literals_run_in_run_order(m: MachineModel, block: BlockModel, budget: nat)
    requires
        m.idle(),
        forall|i: int| 0 <= i < block.exps.len() ==> is_literal(#[trigger] block.exps[i]),
        budget >= block.exps.len() + 2,
    ensures
        start(m, block, budget) == (
            MachineModel {
                stack: m.stack + block.run_order().map_values(|exp: ExpModel| literal(exp)),
                ..m
            },
            OutcomeModel::Finished,
        ),
{
    let len = block.exps.len();
    assert(m.calls =~= Seq::<FrameModel>::empty());
    assert(m.root.work =~= Seq::<WorkModel>::empty());
    assert(m.abandoned().stack == m.stack);
    assert(m.abandoned() == m);
    let begun = MachineModel { root: ExecModel { work: seq![code_of(block)], ..m.root }, ..m };
    lemma_literals_run(begun, block, len, (budget - len) as nat);
    assert(begun.root.work.drop_last() =~= Seq::<WorkModel>::empty());
    let stack = m.stack + pushed(block.exps, len);
    let ran = MachineModel {
        stack,
        root: ExecModel { work: seq![WorkModel::Code { block, pc: 0 }], ..m.root },
        ..m
    };
    assert(Seq::<WorkModel>::empty().push(WorkModel::Code { block, pc: 0 }) =~= seq![
        WorkModel::Code { block, pc: 0 },
    ]);
    let left = MachineModel { stack, root: ExecModel { work: Seq::empty(), ..m.root }, ..m };
    assert(ran.root.work.drop_last() =~= Seq::<WorkModel>::empty());
    assert(turn(ran) == Turn::Go(left));
    assert(turn(left) == Turn::Stop(left, OutcomeModel::Finished));
    assert(run(ran, (budget - len) as nat) == run(left, (budget - len - 1) as nat));
    assert(run(left, (budget - len - 1) as nat) == (left, OutcomeModel::Finished));
    assert(m.root.work =~= Seq::<WorkModel>::empty());
    assert(pushed(block.exps, len) =~= block.run_order().map_values(
        |exp: ExpModel| literal(exp),
    ));
}

/// Naming a function calls it: the engine's next step puts on top of the
/// calls the frame in which the closure runs, which is the frame that
/// `callee` describes, made from what the caller defines and was handed at
/// that time.
pub proof fn law_naming_a_function_calls_it(
    m: MachineModel,
    block: BlockModel,
    pc: nat,
    name: Seq<char>,
    closure: ClosureModel,
)
    requires
        m.current().local.work.len() > 0,
        m.current().local.work.last() == (WorkModel::Code { block, pc }),
        0 < pc <= block.exps.len(),
        block.exps[pc - 1] == ExpModel::Var(name),
        resolve(m.current().local.defs, m.current().prev_defs, name) == Some(
            DataModel::Fn(closure),
        ),
        m.calls.len() < m.call_limit,
    ensures
        turn(m) matches Turn::Go(next) && {
            &&& next.stack == m.stack
            &&& next.calls.len() == m.calls.len() + 1
            &&& next.calls.last() == callee(
                m.current().local.defs,
                m.current().prev_defs,
                closure,
            )
        },
{
}


/// Whether no list is being collected in a work list.
pub open spec fn collects_nothing(work: Seq<WorkModel>) -> bool {
    forall|i: int| 0 <= i < work.len() ==> !(#[trigger] work[i] is Collect)
}

/// Whether no list is being collected anywhere in the engine.
pub open spec fn nothing_collected(m: MachineModel) -> bool {
    &&& collects_nothing(m.root.work)
    &&& forall|i: int| 0 <= i < m.calls.len() ==> collects_nothing((#[trigger] m.calls[i]).local.work)
}

/// Giving up work in which no list is being collected leaves the stack.
pub proof fn lemma_unwind_work(stack: Seq<DataModel>, work: Seq<WorkModel>)
    requires
        collects_nothing(work),
    ensures
        unwind_work(stack, work) == stack,
    decreases work.len(),
{
    if work.len() > 0 {
        assert(!(work[work.len() - 1] is Collect));
        assert forall|i: int| 0 <= i < work.drop_last().len() implies !(
        #[trigger] work.drop_last()[i] is Collect) by {
            assert(work.drop_last()[i] == work[i]);
        }
        lemma_unwind_work(stack, work.drop_last());
    }
}

/// Giving up calls in which no list is being collected leaves the stack.
pub proof fn lemma_unwind_calls(stack: Seq<DataModel>, calls: Seq<FrameModel>)
    requires
        forall|i: int| 0 <= i < calls.len() ==> collects_nothing((#[trigger] calls[i]).local.work),
    ensures
        unwind_calls(stack, calls) == stack,
    decreases calls.len(),
{
    if calls.len() > 0 {
        assert(collects_nothing(calls[calls.len() - 1].local.work));
        lemma_unwind_work(stack, calls.last().local.work);
        assert forall|i: int| 0 <= i < calls.drop_last().len() implies collects_nothing(
            (#[trigger] calls.drop_last()[i]).local.work,
        ) by {
            assert(calls.drop_last()[i] == calls[i]);
        }
        lemma_unwind_calls(stack, calls.drop_last());
    }
}

/// A program that is given up while no list is being collected keeps its
/// stack and the definitions of its root frame.
pub proof fn law_giving_up_keeps_the_stack(m: MachineModel)
    requires
        nothing_collected(m),
    ensures
        m.abandoned().stack == m.stack,
        m.abandoned().root.defs == m.root.defs,
        m.abandoned().idle(),
{
    lemma_unwind_calls(m.stack, m.calls);
    lemma_unwind_work(m.stack, m.root.work);
}

/// A program that names what nothing defines fails with that name. The
/// definitions of the root frame are then as they were, and so is the stack
/// unless a list is being collected.
pub proof fn law_undefined_name_fails_the_program(
    m: MachineModel,
    block: BlockModel,
    pc: nat,
    name: Seq<char>,
)
    requires
        m.current().local.work.len() > 0,
        m.current().local.work.last() == (WorkModel::Code { block, pc }),
        0 < pc <= block.exps.len(),
        block.exps[pc - 1] == ExpModel::Var(name),
        resolve(m.current().local.defs, m.current().prev_defs, name) is None,
    ensures
        turn(m) matches Turn::Stop(after, outcome) && {
            &&& outcome == OutcomeModel::Failed(ErrorModel::NameNotFound(name))
            &&& after.idle()
            &&& after.root.defs == m.root.defs
            &&& nothing_collected(m) ==> after.stack == m.stack
        },
{
    let top = m.current();
    let step = frame_step(m.stack, top.prev_defs, top.local);
    assert(step.result == Err::<crate::effect::EffectModel, ErrorModel>(
        ErrorModel::NameNotFound(name),
    ));
    let failed = (MachineModel { stack: step.stack, ..m }).with_current(step.local);
    assert(step.local.defs == top.local.defs);
    if nothing_collected(m) {
        let code = WorkModel::Code { block, pc: (pc - 1) as nat };
        assert(collects_nothing(step.local.work)) by {
            assert forall|i: int| 0 <= i < step.local.work.len() implies !(
            #[trigger] step.local.work[i] is Collect) by {
                if i < top.local.work.len() - 1 {
                    assert(step.local.work[i] == top.local.work[i]);
                    if m.calls.len() > 0 {
                        assert(collects_nothing(m.calls[m.calls.len() - 1].local.work));
                    }
                }
            }
        }
        assert(nothing_collected(failed)) by {
            if m.calls.len() > 0 {
                assert forall|i: int| 0 <= i < failed.calls.len() implies collects_nothing(
                    (#[trigger] failed.calls[i]).local.work,
                ) by {
                    if i < m.calls.len() - 1 {
                        assert(failed.calls[i] == m.calls[i]);
                    }
                }
            }
        }
        law_giving_up_keeps_the_stack(failed);
    }
}


/// A program with a block literal that marks a name which nothing defines
/// fails where the literal stands, with a name that the literal marks and
/// nothing defines. No closure is made, so nothing can call the block.
pub proof fn law_capture_of_undefined_fails_the_program(
    m: MachineModel,
    block: BlockModel,
    pc: nat,
    literal: BlockModel,
    name: Seq<char>,
)
    requires
        m.current().local.work.len() > 0,
        m.current().local.work.last() == (WorkModel::Code { block, pc }),
        0 < pc <= block.exps.len(),
        block.exps[pc - 1] == ExpModel::Block(literal),
        literal.captures.contains(name),
        resolve(m.current().local.defs, m.current().prev_defs, name) is None,
    ensures
        turn(m) matches Turn::Stop(after, OutcomeModel::Failed(
            ErrorModel::CaptureResolutionFailure(missing),
        )) && {
            &&& literal.captures.contains(missing)
            &&& resolve(m.current().local.defs, m.current().prev_defs, missing) is None
            &&& after.idle()
            &&& after.root.defs == m.root.defs
        },
{
    lemma_first_unresolved(literal.captures, m.current().local.defs, m.current().prev_defs);
}


/// The engine after a step, whether it goes on or stops.
pub open spec fn after(turned: Turn) -> MachineModel {
    match turned {
        Turn::Go(next) => next,
        Turn::Stop(last, _) => last,
    }
}

/// What is handed down to a call is fixed when the call is made: no step of
/// the engine changes the map handed down to a frame that stays under way,
/// and below the innermost frame no step changes anything of a frame. So
/// what a caller defines after it has made a call does not reach the frames
/// of that call.
pub proof fn law_handed_down_map_is_fixed(m: MachineModel, i: int)
    requires
        0 <= i < m.calls.len(),
        i < after(turn(m)).calls.len(),
    ensures
        after(turn(m)).calls[i].prev_defs == m.calls[i].prev_defs,
        i < m.calls.len() - 1 ==> after(turn(m)).calls[i] == m.calls[i],
{
}

} // verus!
