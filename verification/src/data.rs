//! The values that move through the operand stack and the definition maps.

use vstd::prelude::*;
use std::rc::Rc;
use crate::run_tree;
use crate::run_tree::BlockModel;

verus! {

/// The kinds of value that a program can tell apart.
#[derive(Clone, Copy, Debug, PartialEq, Eq, Structural)]
pub enum Kind {
    String,
    Integer,
    Decimal,
    List,
    Dict,
    Box,
    Block,
    Fn,
    External,
}

/// The operations on two numbers, on integers and on decimals alike.
#[derive(Clone, Copy, Debug, PartialEq, Eq, Structural)]
pub enum NumberOp {
    Add,
    Sub,
    Mul,
    Div,
    Rem,
}

/// The operations on two integers: bitwise ones, and comparisons that give
/// 1 or 0.
#[derive(Clone, Copy, Debug, PartialEq, Eq, Structural)]
pub enum IntegerOp {
    And,
    Xor,
    Or,
    Eq,
    Ne,
    Lt,
    Le,
    Gt,
    Ge,
}

/// The native operations.
#[derive(Clone, Copy, Debug, PartialEq, Eq, Structural)]
pub enum Builtin {
    DefFn,
    Def,
    If,
    Do,
    DoLocal,
    GetFn,
    GetDef,
    HasDef,
    Print,
    Debug,
    Timer,
    Assert,
    UseFile,
    TryUseFile,
    AnyAssert,
    AnyCheck,
    Drop,
    NewExt,
    UseExt,
    TypeAssert(Kind),
    TypeCheck(Kind),
    ToInteger,
    ToDecimal,
    ToString,
    ToList,
    StringJoin,
    StringChars,
    List,
    ListReverse,
    ListStack,
    ListSwapStack,
    ListToStack,
    Number(NumberOp),
    Integer(IntegerOp),
    Neg,
    ToBool,
    Not,
}

/// A value.
#[derive(Debug, PartialEq)]
pub enum Data {
    String(String),
    Integer(i64),
    /// A decimal, as the bit pattern of its 64-bit value. The engine carries
    /// decimals and leaves their arithmetic to the host.
    Decimal(u64),
    /// A list; its last item is its top.
    List(Vec<Data>),
    /// A dictionary, as its entries in the order in which they were made.
    /// No operation of the engine makes a dictionary or looks into one; the
    /// engine carries it as it is.
    Dict(Vec<(Data, Data)>),
    /// The handle of a shared mutable cell. The cell is the host's; the
    /// engine carries the handle.
    Box(usize),
    /// Code that waits to be run.
    Block(Block),
    /// Code bound to a name so that naming it runs it.
    Fn(Block),
    /// The handle of a capability that the host holds.
    External(usize),
    BuiltinFunc(Builtin),
}

/// A closure: shared code, and the values frozen for it when it was made.
#[derive(Debug, PartialEq)]
pub struct Block {
    pub block: Rc<run_tree::Block>,
    pub captured_vars: Defs,
}

/// A definition map, from names to values. It is kept as a list of entries
/// of which, for each name, the last one counts.
#[derive(Debug, PartialEq)]
pub struct Defs {
    pub entries: Vec<(String, Data)>,
}

/// The mathematical content of a definition map.
pub type Env = Map<Seq<char>, DataModel>;

/// The mathematical content of a value.
pub enum DataModel {
    String(Seq<char>),
    Integer(i64),
    Decimal(u64),
    List(Seq<DataModel>),
    Dict(Seq<(DataModel, DataModel)>),
    Box(usize),
    Block(ClosureModel),
    Fn(ClosureModel),
    External(usize),
    BuiltinFunc(Builtin),
}

/// The mathematical content of a closure.
pub struct ClosureModel {
    pub block: BlockModel,
    pub captured: Env,
}

impl DataModel {
    /// The kind of this value; a native operation has none.
    pub open spec fn kind(self) -> Option<Kind> {
        match self {
            DataModel::String(_) => Some(Kind::String),
            DataModel::Integer(_) => Some(Kind::Integer),
            DataModel::Decimal(_) => Some(Kind::Decimal),
            DataModel::List(_) => Some(Kind::List),
            DataModel::Dict(_) => Some(Kind::Dict),
            DataModel::Box(_) => Some(Kind::Box),
            DataModel::Block(_) => Some(Kind::Block),
            DataModel::Fn(_) => Some(Kind::Fn),
            DataModel::External(_) => Some(Kind::External),
            DataModel::BuiltinFunc(_) => None,
        }
    }
}

/// The content of a list of values, item for item.
pub open spec fn list_view(items: Seq<Data>) -> Seq<DataModel>
    decreases items, 0nat,
{
    Seq::new(
        items.len(),
        |i: int|
            if 0 <= i < items.len() {
                data_view(items[i])
            } else {
                DataModel::Integer(0)
            },
    )
}

/// The content of the entries of a dictionary, entry for entry.
pub open spec fn pairs_view(pairs: Seq<(Data, Data)>) -> Seq<(DataModel, DataModel)>
    decreases pairs, 0nat,
{
    Seq::new(
        pairs.len(),
        |i: int|
            if 0 <= i < pairs.len() {
                (data_view(pairs[i].0), data_view(pairs[i].1))
            } else {
                (DataModel::Integer(0), DataModel::Integer(0))
            },
    )
}

/// The map that a list of entries stands for: a later entry replaces an
/// earlier one of the same name.
pub open spec fn entries_view(entries: Seq<(String, Data)>) -> Env
    decreases entries, 0nat,
{
    if entries.len() == 0 {
        Map::empty()
    } else {
        entries_view(entries.drop_last()).insert(entries.last().0@, data_view(entries.last().1))
    }
}

/// The content of a closure.
pub open spec fn closure_view(closure: Block) -> ClosureModel
    decreases closure, 1nat,
{
    ClosureModel {
        block: closure.block@,
        captured: entries_view(closure.captured_vars.entries@),
    }
}

/// The content of a value.
pub open spec fn data_view(data: Data) -> DataModel
    decreases data, 2nat,
{
    match data {
        Data::String(text) => DataModel::String(text@),
        Data::Integer(n) => DataModel::Integer(n),
        Data::Decimal(bits) => DataModel::Decimal(bits),
        Data::List(items) => DataModel::List(list_view(items@)),
        Data::Dict(pairs) => DataModel::Dict(pairs_view(pairs@)),
        Data::Box(cell) => DataModel::Box(cell),
        Data::Block(closure) => DataModel::Block(closure_view(closure)),
        Data::Fn(closure) => DataModel::Fn(closure_view(closure)),
        Data::External(handle) => DataModel::External(handle),
        Data::BuiltinFunc(func) => DataModel::BuiltinFunc(func),
    }
}

impl View for Data {
    type V = DataModel;

    open spec fn view(&self) -> DataModel {
        data_view(*self)
    }
}

impl View for Block {
    type V = ClosureModel;

    open spec fn view(&self) -> ClosureModel {
        closure_view(*self)
    }
}

impl View for Defs {
    type V = Env;

    open spec fn view(&self) -> Env {
        entries_view(self.entries@)
    }
}


/// Hands out one more reference to shared code.
///
/// Calls `Rc::clone`, which gives a new pointer to the same allocation: the
/// code behind the result is the code behind `block`.
#[verifier::external_body]
pub(crate) fn share(block: &Rc<run_tree::Block>) -> (res: Rc<run_tree::Block>)
    ensures
        res == *block,
{
    Rc::clone(block)
}

fn clone_list(items: &Vec<Data>) -> (res: Vec<Data>)
    ensures
        list_view(res@) == list_view(items@),
    decreases items, 0nat,
{
    let mut out: Vec<Data> = Vec::new();
    let mut i: usize = 0;
    while i < items.len()
        invariant
            i <= items.len(),
            out@.len() == i,
            forall|j: int| 0 <= j < i ==> data_view(out@[j]) == data_view(items@[j]),
        decreases items.len() - i,
    {
        proof {
            assert(decreases_to!(*items => items@));
            assert(decreases_to!(items@ => items@[i as int]));
        }
        let item = clone_data(&items[i]);
        out.push(item);
        i += 1;
    }
    assert(list_view(out@) =~= list_view(items@));
    out
}

fn clone_pairs(pairs: &Vec<(Data, Data)>) -> (res: Vec<(Data, Data)>)
    ensures
        pairs_view(res@) == pairs_view(pairs@),
    decreases pairs, 0nat,
{
    let mut out: Vec<(Data, Data)> = Vec::new();
    let mut i: usize = 0;
    while i < pairs.len()
        invariant
            i <= pairs.len(),
            out@.len() == i,
            forall|j: int|
                0 <= j < i ==> data_view(out@[j].0) == data_view(pairs@[j].0) && data_view(
                    out@[j].1,
                ) == data_view(pairs@[j].1),
        decreases pairs.len() - i,
    {
        proof {
            assert(decreases_to!(*pairs => pairs@));
            assert(decreases_to!(pairs@ => pairs@[i as int]));
        }
        let key = clone_data(&pairs[i].0);
        let value = clone_data(&pairs[i].1);
        out.push((key, value));
        i += 1;
    }
    assert(pairs_view(out@) =~= pairs_view(pairs@));
    out
}

fn clone_entries(entries: &Vec<(String, Data)>) -> (res: Vec<(String, Data)>)
    ensures
        entries_view(res@) == entries_view(entries@),
        res@.len() == entries@.len(),
    decreases entries, 0nat,
{
    let mut out: Vec<(String, Data)> = Vec::new();
    let mut i: usize = 0;
    while i < entries.len()
        invariant
            i <= entries.len(),
            out@.len() == i,
            entries_view(out@) == entries_view(entries@.take(i as int)),
        decreases entries.len() - i,
    {
        proof {
            assert(decreases_to!(*entries => entries@));
            assert(decreases_to!(entries@ => entries@[i as int]));
        }
        let name = entries[i].0.clone();
        let value = clone_data(&entries[i].1);
        proof {
            assert(entries@.take(i + 1).drop_last() == entries@.take(i as int));
            assert(out@.push((name, value)).drop_last() == out@);
        }
        out.push((name, value));
        i += 1;
    }
    assert(entries@.take(i as int) == entries@);
    out
}

fn clone_closure(closure: &Block) -> (res: Block)
    ensures
        closure_view(res) == closure_view(*closure),
    decreases closure, 1nat,
{
    Block {
        block: share(&closure.block),
        captured_vars: Defs { entries: clone_entries(&closure.captured_vars.entries) },
    }
}

fn clone_data(data: &Data) -> (res: Data)
    ensures
        data_view(res) == data_view(*data),
    decreases data, 2nat,
{
    match data {
        Data::String(text) => Data::String(text.clone()),
        Data::Integer(n) => Data::Integer(*n),
        Data::Decimal(bits) => Data::Decimal(*bits),
        Data::List(items) => Data::List(clone_list(items)),
        Data::Dict(pairs) => Data::Dict(clone_pairs(pairs)),
        Data::Box(cell) => Data::Box(*cell),
        Data::Block(closure) => Data::Block(clone_closure(closure)),
        Data::Fn(closure) => Data::Fn(clone_closure(closure)),
        Data::External(handle) => Data::External(*handle),
        Data::BuiltinFunc(func) => Data::BuiltinFunc(*func),
    }
}

impl Data {
    /// The kind of this value; a native operation has none.
    pub fn kind(&self) -> (res: Option<Kind>)
        ensures
            res == self@.kind(),
    {
        match self {
            Data::String(_) => Some(Kind::String),
            Data::Integer(_) => Some(Kind::Integer),
            Data::Decimal(_) => Some(Kind::Decimal),
            Data::List(_) => Some(Kind::List),
            Data::Dict(_) => Some(Kind::Dict),
            Data::Box(_) => Some(Kind::Box),
            Data::Block(_) => Some(Kind::Block),
            Data::Fn(_) => Some(Kind::Fn),
            Data::External(_) => Some(Kind::External),
            Data::BuiltinFunc(_) => None,
        }
    }
}

impl Clone for Data {
    /// A copy with the same content. Code is shared, everything else is
    /// copied.
    fn clone(&self) -> (res: Self)
        ensures
            res@ == self@,
    {
        clone_data(self)
    }
}

impl Clone for Block {
    fn clone(&self) -> (res: Self)
        ensures
            res@ == self@,
    {
        clone_closure(self)
    }
}

impl Clone for Defs {
    fn clone(&self) -> (res: Self)
        ensures
            res@ == self@,
    {
        Defs { entries: clone_entries(&self.entries) }
    }
}

} // verus!
