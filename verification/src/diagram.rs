//! A picture of a syntax tree, as the text of a diagram: one node for each
//! expression, an arrow down to the expression behind it in its chain, and
//! an arrow to the right into the chain of a block.

use vstd::prelude::*;
use crate::ast::{Block, Exp, ExpData, NodeModel, chain_view, node_view};
use crate::effect::{Fragment, FragmentModel, fragments_view};
use crate::render::{
    digits, integer_string, integer_text, natural_string, put, put_str, text,
};

verus! {

/// The mark of the node with the number `id`. The numbers stop at the
/// largest that 64 bits hold.
pub open spec fn mark(id: nat) -> Seq<FragmentModel> {
    text(digits(clamp(id) as nat))
}

/// The number `id`, or the largest that 64 bits hold if `id` is larger.
pub open spec fn clamp(id: nat) -> u64 {
    if id <= u64::MAX {
        id as u64
    } else {
        u64::MAX
    }
}

/// What a node shows.
pub open spec fn label(node: NodeModel) -> Seq<FragmentModel> {
    match node {
        NodeModel::Var(name) => text(name),
        NodeModel::CapturedVar(name) => text("@"@) + text(name),
        NodeModel::Block(_) => text("block"@),
        NodeModel::Integer(n) => text(integer_text(n as int)),
        NodeModel::Decimal(bits) => text("@"@) + seq![FragmentModel::Decimal(bits)],
        NodeModel::String(s) => text("\""@) + text(s),
    }
}

/// The number of nodes in a chain, with those inside its blocks.
pub open spec fn node_count(chain: Seq<NodeModel>) -> nat
    decreases chain, 0nat,
{
    if chain.len() == 0 {
        0
    } else {
        1 + inner_count(chain[0]) + node_count(chain.drop_first())
    }
}

/// The number of nodes inside a node.
pub open spec fn inner_count(node: NodeModel) -> nat
    decreases node, 1nat,
{
    match node {
        NodeModel::Block(inner) => node_count(inner),
        _ => 0,
    }
}

/// The line for an arrow of one kind from one node to another.
pub open spec fn arrow(from: nat, kind: Seq<char>, to: nat) -> Seq<FragmentModel> {
    mark(from) + text(kind) + mark(to) + text("\n"@)
}

/// The nodes and arrows of a chain whose first node has the number `id`.
/// The nodes are numbered in the order in which they are written: a node,
/// then what is inside it, then what is behind it.
pub open spec fn diagram_nodes(chain: Seq<NodeModel>, id: nat) -> Seq<FragmentModel>
    decreases chain, 0nat,
{
    if chain.len() == 0 {
        Seq::empty()
    } else {
        let node = chain[0];
        let rest = chain.drop_first();
        let behind = id + 1 + inner_count(node);
        text("("@) + label(node) + text(")as "@) + mark(id) + text("\n"@) + inner_diagram(node, id)
            + if rest.len() > 0 {
            diagram_nodes(rest, behind) + arrow(id, "-d->"@, behind)
        } else {
            Seq::empty()
        }
    }
}

/// The nodes inside the node with the number `id`, and the arrow into them.
pub open spec fn inner_diagram(node: NodeModel, id: nat) -> Seq<FragmentModel>
    decreases node, 1nat,
{
    match node {
        NodeModel::Block(inner) => if inner.len() > 0 {
            diagram_nodes(inner, id + 1) + arrow(id, "-r->"@, id + 1)
        } else {
            Seq::empty()
        },
        _ => Seq::empty(),
    }
}

/// The diagram of a whole text: the file as node 0, and the tree below it.
pub open spec fn diagram(chain: Seq<NodeModel>) -> Seq<FragmentModel> {
    text("@startuml\n"@) + text("(file)as 0\n"@) + if chain.len() > 0 {
        diagram_nodes(chain, 1) + arrow(0, "-d->"@, 1)
    } else {
        Seq::empty()
    } + text("@enduml\n"@)
}

fn put_mark(out: &mut Vec<Fragment>, id: u64)
    ensures
        fragments_view(final(out)@) == fragments_view(old(out)@) + text(digits(id as nat)),
{
    put(out, Fragment::Text(natural_string(id)));
}

fn put_arrow(
    out: &mut Vec<Fragment>,
    from: u64,
    kind: &str,
    to: u64,
    Ghost(a): Ghost<nat>,
    Ghost(b): Ghost<nat>,
)
    requires
        from == clamp(a),
        to == clamp(b),
    ensures
        fragments_view(final(out)@) == fragments_view(old(out)@) + arrow(a, kind@, b),
{
    put_mark(out, from);
    put_str(out, kind);
    put_mark(out, to);
    put_str(out, "\n");
    assert(fragments_view(out@) =~= fragments_view(old(out)@) + arrow(a, kind@, b));
}

fn put_label(out: &mut Vec<Fragment>, data: &ExpData)
    ensures
        fragments_view(final(out)@) == fragments_view(old(out)@) + label(data@),
{
    match data {
        ExpData::Var(var) => {
            put(out, Fragment::Text(var.clone()));
        },
        ExpData::CapturedVar(var) => {
            put_str(out, "@");
            put(out, Fragment::Text(var.clone()));
        },
        ExpData::Block(_) => {
            put_str(out, "block");
        },
        ExpData::Integer(n) => {
            put(out, Fragment::Text(integer_string(*n)));
        },
        ExpData::Decimal(bits) => {
            put_str(out, "@");
            put(out, Fragment::Decimal(*bits));
        },
        ExpData::String(s) => {
            put_str(out, "\"");
            put(out, Fragment::Text(s.clone()));
        },
    }
    assert(fragments_view(out@) =~= fragments_view(old(out)@) + label(data@));
}

fn bump(id: u64, Ghost(n): Ghost<nat>) -> (res: u64)
    requires
        id == clamp(n),
    ensures
        res == clamp(n + 1),
{
    if id < u64::MAX {
        id + 1
    } else {
        id
    }
}

/// Writes the chain that starts at `exp`, whose first node gets the number
/// `id`, and gives the number that is free behind it.
fn print_ast_exp(exp: &Exp, id: u64, out: &mut Vec<Fragment>, Ghost(n): Ghost<nat>) -> (next: u64)
    requires
        id == clamp(n),
    ensures
        fragments_view(final(out)@) == fragments_view(old(out)@) + diagram_nodes(
            chain_view(Some(Box::new(*exp))),
            n,
        ),
        next == clamp(n + node_count(chain_view(Some(Box::new(*exp))))),
    decreases exp,
{
    let ghost start = fragments_view(out@);
    let ghost chain = chain_view(Some(Box::new(*exp)));
    let ghost node = node_view(exp.data);
    let ghost rest = chain_view(exp.next_exp);
    proof {
        assert(chain[0] == node);
        assert(chain.drop_first() =~= rest);
        assert(node_count(chain) == 1 + inner_count(node) + node_count(rest));
    }
    put_str(out, "(");
    put_label(out, &exp.data);
    put_str(out, ")as ");
    put_mark(out, id);
    put_str(out, "\n");
    let ghost head = text("("@) + label(node) + text(")as "@) + mark(n) + text("\n"@);
    assert(fragments_view(out@) =~= start + head);
    let mut next = bump(id, Ghost(n));
    match &exp.data {
        ExpData::Block(block) => {
            match &block.exp {
                Some(inner) => {
                    let behind = print_ast_exp(inner, next, out, Ghost(n + 1));
                    put_arrow(out, id, "-r->", next, Ghost(n), Ghost(n + 1));
                    next = behind;
                    assert(chain_view(block.exp).len() > 0);
                },
                None => {
                    assert(chain_view(block.exp).len() == 0);
                },
            }
        },
        _ => {},
    }
    assert(fragments_view(out@) =~= start + head + inner_diagram(node, n));
    assert(next == clamp(n + 1 + inner_count(node)));
    match &exp.next_exp {
        Some(next_exp) => {
            let from = next;
            let ghost behind = n + 1 + inner_count(node);
            let after = print_ast_exp(next_exp, from, out, Ghost(behind));
            put_arrow(out, id, "-d->", from, Ghost(n), Ghost(behind));
            next = after;
            assert(rest.len() > 0);
            assert(fragments_view(out@) =~= start + diagram_nodes(chain, n));
        },
        None => {
            assert(rest.len() == 0);
            assert(fragments_view(out@) =~= start + diagram_nodes(chain, n));
        },
    }
    next
}

/// Draws a syntax tree.
pub fn print_ast(tree: &Block) -> (res: Vec<Fragment>)
    ensures
        fragments_view(res@) == diagram(tree@),
{
    let mut out: Vec<Fragment> = Vec::new();
    assert(fragments_view(out@) =~= Seq::empty());
    put_str(&mut out, "@startuml\n");
    put_str(&mut out, "(file)as 0\n");
    match &tree.exp {
        Some(exp) => {
            let _ = print_ast_exp(exp, 1, &mut out, Ghost(1));
            put_arrow(&mut out, 0, "-d->", 1, Ghost(0), Ghost(1));
            assert(tree@.len() > 0);
        },
        None => {
            assert(tree@.len() == 0);
        },
    }
    put_str(&mut out, "@enduml\n");
    assert(fragments_view(out@) =~= diagram(tree@));
    out
}

} // verus!
