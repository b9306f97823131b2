//! The run tree: the form of a program that the engine executes. It is built
//! once from the syntax tree, never changed afterwards, and shared by every
//! closure made from it.

use vstd::prelude::*;
use std::rc::Rc;
use crate::ast;
use crate::ast::{NodeModel, chain_view, node_view};

verus! {

/// A block ready to run: its expressions in link order (the last one runs
/// first) and the names it snapshots when a closure is made from it.
#[derive(Debug, PartialEq)]
pub struct Block {
    pub exps: Vec<Exp>,
    pub capture_vars: Vec<String>,
}

/// What one expression of the run tree says.
#[derive(Debug, PartialEq)]
pub enum ExpData {
    Var(String),
    Block(Rc<Block>),
    Integer(i64),
    /// A decimal literal, as the bit pattern of its 64-bit value.
    Decimal(u64),
    String(String),
}

/// An expression of the run tree.
#[derive(Debug, PartialEq)]
pub struct Exp {
    pub data: ExpData,
}

/// The mathematical content of an expression of the run tree.
pub enum ExpModel {
    Var(Seq<char>),
    Block(BlockModel),
    Integer(i64),
    Decimal(u64),
    String(Seq<char>),
}

/// The mathematical content of a block of the run tree.
pub struct BlockModel {
    /// The expressions in link order.
    pub exps: Seq<ExpModel>,
    /// The captured names, each once, in the order of their first mark.
    pub captures: Seq<Seq<char>>,
}

impl BlockModel {
    /// The expressions in the order in which they run.
    pub open spec fn run_order(self) -> Seq<ExpModel> {
        self.exps.reverse()
    }
}

/// The content of a list of expressions, expression for expression.
pub open spec fn exps_view(exps: Seq<Exp>) -> Seq<ExpModel>
    decreases exps, 0nat,
{
    Seq::new(
        exps.len(),
        |i: int|
            if 0 <= i < exps.len() {
                data_view(exps[i].data)
            } else {
                ExpModel::Integer(0)
            },
    )
}

/// The content of a list of names.
pub open spec fn names_view(names: Seq<String>) -> Seq<Seq<char>> {
    Seq::new(names.len(), |i: int| names[i]@)
}

/// The content of an expression.
pub open spec fn data_view(data: ExpData) -> ExpModel
    decreases data, 1nat,
{
    match data {
        ExpData::Var(name) => ExpModel::Var(name@),
        ExpData::Block(block) => ExpModel::Block(block_view(*block)),
        ExpData::Integer(n) => ExpModel::Integer(n),
        ExpData::Decimal(bits) => ExpModel::Decimal(bits),
        ExpData::String(text) => ExpModel::String(text@),
    }
}

/// The content of a block.
pub open spec fn block_view(block: Block) -> BlockModel
    decreases block, 2nat,
{
    BlockModel { exps: exps_view(block.exps@), captures: names_view(block.capture_vars@) }
}

impl View for Block {
    type V = BlockModel;

    open spec fn view(&self) -> BlockModel {
        block_view(*self)
    }
}

impl View for ExpData {
    type V = ExpModel;

    open spec fn view(&self) -> ExpModel {
        data_view(*self)
    }
}

impl View for Exp {
    type V = ExpModel;

    open spec fn view(&self) -> ExpModel {
        data_view(self.data)
    }
}


/// The names marked for capture along a chain, in link order, with repeats.
/// A nested block keeps its marks to itself.
pub open spec fn marked(chain: Seq<NodeModel>) -> Seq<Seq<char>>
    decreases chain.len(),
{
    if chain.len() == 0 {
        Seq::empty()
    } else {
        match chain[0] {
            NodeModel::CapturedVar(name) => seq![name] + marked(chain.drop_first()),
            _ => marked(chain.drop_first()),
        }
    }
}

/// `names` with `name` added at the end unless it is there already.
pub open spec fn with_name(names: Seq<Seq<char>>, name: Seq<char>) -> Seq<Seq<char>> {
    if names.contains(name) {
        names
    } else {
        names.push(name)
    }
}

/// `names` with each of `marks` added in turn.
pub open spec fn with_names(names: Seq<Seq<char>>, marks: Seq<Seq<char>>) -> Seq<Seq<char>>
    decreases marks.len(),
{
    if marks.len() == 0 {
        names
    } else {
        with_names(with_name(names, marks[0]), marks.drop_first())
    }
}

/// What the run tree holds for one node of the syntax tree. A marked name
/// runs as the plain name does.
pub open spec fn compile_node(node: NodeModel) -> ExpModel
    decreases node, 1nat,
{
    match node {
        NodeModel::Var(name) => ExpModel::Var(name),
        NodeModel::CapturedVar(name) => ExpModel::Var(name),
        NodeModel::Block(chain) => ExpModel::Block(compile(chain)),
        NodeModel::Integer(n) => ExpModel::Integer(n),
        NodeModel::Decimal(bits) => ExpModel::Decimal(bits),
        NodeModel::String(text) => ExpModel::String(text),
    }
}

/// What the run tree holds for a chain of the syntax tree, node for node.
pub open spec fn compile_chain(chain: Seq<NodeModel>) -> Seq<ExpModel>
    decreases chain, 0nat,
{
    Seq::new(
        chain.len(),
        |i: int|
            if 0 <= i < chain.len() {
                compile_node(chain[i])
            } else {
                ExpModel::Integer(0)
            },
    )
}

/// The run tree of a syntax block: node for node the same chain, and as
/// capture set the names that this block itself marks.
pub open spec fn compile(chain: Seq<NodeModel>) -> BlockModel
    decreases chain, 1nat,
{
    BlockModel { exps: compile_chain(chain), captures: with_names(Seq::empty(), marked(chain)) }
}

fn has_name(names: &Vec<String>, name: &String) -> (res: bool)
    ensures
        res == names_view(names@).contains(name@),
{
    let mut i: usize = 0;
    while i < names.len()
        invariant
            i <= names.len(),
            forall|j: int| 0 <= j < i ==> names@[j]@ != name@,
        decreases names.len() - i,
    {
        if names[i] == *name {
            assert(names_view(names@)[i as int] == name@);
            return true;
        }
        i += 1;
    }
    false
}

/// Builds the run tree of a syntax block.
pub fn load(block: &ast::Block) -> (res: Rc<Block>)
    ensures
        res@ == compile(block@),
    decreases block,
{
    let mut exps: Vec<Exp> = Vec::new();
    let mut capture_vars: Vec<String> = Vec::new();
    assert(exps_view(exps@) =~= Seq::empty());
    assert(names_view(capture_vars@) =~= Seq::empty());
    match &block.exp {
        Some(exp) => {
            load_exp(exp, &mut capture_vars, &mut exps);
            assert(exps_view(exps@) =~= compile_chain(block@));
        },
        None => {
            assert(exps_view(exps@) =~= compile_chain(block@));
        },
    }
    Rc::new(Block { exps, capture_vars })
}

/// Appends the run-tree nodes of the chain that starts at `exp` to `exps`, and
/// the names it marks to `captured_vars`.
fn load_exp(exp: &ast::Exp, captured_vars: &mut Vec<String>, exps: &mut Vec<Exp>)
    ensures
        exps_view(final(exps)@) == exps_view(old(exps)@) + compile_chain(
            chain_view(Some(Box::new(*exp))),
        ),
        names_view(final(captured_vars)@) == with_names(
            names_view(old(captured_vars)@),
            marked(chain_view(Some(Box::new(*exp)))),
        ),
    decreases exp,
{
    let ghost exps0 = exps@;
    let ghost names0 = names_view(captured_vars@);
    let ghost whole = chain_view(Some(Box::new(*exp)));
    let ghost rest = chain_view(exp.next_exp);
    assert(whole.drop_first() =~= rest);
    assert(whole[0] == node_view(exp.data));
    let data = match &exp.data {
        ast::ExpData::Var(var) => ExpData::Var(var.clone()),
        ast::ExpData::CapturedVar(var) => {
            if !has_name(captured_vars, var) {
                captured_vars.push(var.clone());
                assert(names_view(captured_vars@) =~= names0.push(var@));
            }
            ExpData::Var(var.clone())
        },
        ast::ExpData::Block(block) => ExpData::Block(load(block)),
        ast::ExpData::Integer(n) => ExpData::Integer(*n),
        ast::ExpData::Decimal(bits) => ExpData::Decimal(*bits),
        ast::ExpData::String(text) => ExpData::String(text.clone()),
    };
    assert(data_view(data) == compile_node(node_view(exp.data)));
    exps.push(Exp { data });
    assert(exps_view(exps@) =~= exps_view(exps0).push(compile_node(whole[0])));
    proof {
        if exp.data is CapturedVar {
            let name = exp.data->CapturedVar_0@;
            assert(names_view(captured_vars@) == with_name(names0, name));
            assert(marked(whole) == seq![name] + marked(rest));
            assert(marked(whole).drop_first() =~= marked(rest));
            assert(marked(whole)[0] == name);
        } else {
            assert(marked(whole) == marked(rest));
        }
        assert(with_names(names0, marked(whole)) == with_names(
            names_view(captured_vars@),
            marked(rest),
        ));
    }
    match &exp.next_exp {
        Some(next_exp) => {
            load_exp(next_exp, captured_vars, exps);
        },
        None => {
            assert(rest =~= Seq::empty());
        },
    }
    assert(exps_view(exps@) =~= exps_view(exps0) + compile_chain(whole));
}

} // verus!
