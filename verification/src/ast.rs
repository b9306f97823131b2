//! The syntax tree that the engine takes in: a block is a chain of expression
//! nodes, each linked to the next.

use vstd::prelude::*;

verus! {

/// A block of source text: the head of its expression chain, if it has one.
#[derive(Debug, PartialEq)]
pub struct Block {
    pub exp: Option<Box<Exp>>,
}

/// What one expression node says.
#[derive(Debug, PartialEq)]
pub enum ExpData {
    /// A name, resolved when the expression runs.
    Var(String),
    /// A name that the enclosing block snapshots when its closure is made.
    CapturedVar(String),
    /// A nested block literal.
    Block(Block),
    Integer(i64),
    /// A decimal literal, as the bit pattern of its 64-bit value.
    Decimal(u64),
    String(String),
}

/// A node of the chain with the link to the node after it.
#[derive(Debug, PartialEq)]
pub struct Exp {
    pub data: ExpData,
    pub next_exp: Option<Box<Exp>>,
}

/// The mathematical content of an expression node. A block is its chain
/// in link order, head first.
pub enum NodeModel {
    Var(Seq<char>),
    CapturedVar(Seq<char>),
    Block(Seq<NodeModel>),
    Integer(i64),
    Decimal(u64),
    String(Seq<char>),
}

/// The content of a node.
pub open spec fn node_view(data: ExpData) -> NodeModel
    decreases data,
{
    match data {
        ExpData::Var(name) => NodeModel::Var(name@),
        ExpData::CapturedVar(name) => NodeModel::CapturedVar(name@),
        ExpData::Block(block) => NodeModel::Block(chain_view(block.exp)),
        ExpData::Integer(n) => NodeModel::Integer(n),
        ExpData::Decimal(bits) => NodeModel::Decimal(bits),
        ExpData::String(text) => NodeModel::String(text@),
    }
}

/// The nodes of a chain in link order, head first.
pub open spec fn chain_view(exp: Option<Box<Exp>>) -> Seq<NodeModel>
    decreases exp,
{
    match exp {
        None => Seq::empty(),
        Some(e) => seq![node_view(e.data)] + chain_view(e.next_exp),
    }
}

impl View for ExpData {
    type V = NodeModel;

    open spec fn view(&self) -> NodeModel {
        node_view(*self)
    }
}

impl View for Block {
    type V = Seq<NodeModel>;

    open spec fn view(&self) -> Seq<NodeModel> {
        chain_view(self.exp)
    }
}

/// The order in which the nodes of a chain run: the link order backwards.
pub open spec fn run_order(chain: Seq<NodeModel>) -> Seq<NodeModel> {
    chain.reverse()
}

} // verus!
