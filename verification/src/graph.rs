//! Trusted boundary around petgraph. The conversation graph is a
//! `petgraph::graph::Graph` of [`ConvoNode`] weights with unlabeled directed
//! edges; everything the verified code knows of it is stated here, over two
//! names: the node-weight sequence and the edge list, both in insertion order.

use vstd::prelude::*;
use crate::conversation::ConvoNode;
use petgraph::graph::Graph;
use petgraph::graph::NodeIndex;
use petgraph::visit::EdgeRef;
use petgraph::Directed;

verus! {

#[verifier::external_type_specification]
#[verifier::external_body]
#[verifier::reject_recursive_types(N)]
#[verifier::reject_recursive_types(E)]
#[verifier::reject_recursive_types(Ty)]
#[verifier::reject_recursive_types(Ix)]
pub struct ExGraph<N, E, Ty, Ix>(Graph<N, E, Ty, Ix>);

#[verifier::external_type_specification]
#[verifier::external_body]
pub struct ExDirected(Directed);

/// The directed graph that carries a built conversation. The index type is
/// `usize`, so node and edge counts are capped only by the address space.
pub type ConvoGraph = Graph<ConvoNode, (), Directed, usize>;

/// The node weights the graph holds, in insertion order: node index `i`
/// carries weight `graph_nodes(g)[i]`.
pub uninterp spec fn graph_nodes(g: ConvoGraph) -> Seq<ConvoNode>;

/// The graph's edges as (source, target) node-index pairs, in insertion order.
pub uninterp spec fn graph_edge_list(g: ConvoGraph) -> Seq<(int, int)>;

/// Relies on Graph::with_capacity: the graph starts with no nodes and no edges.
#[verifier::external_body]
pub(crate) fn graph_new() -> (g: ConvoGraph)
    ensures
        graph_nodes(g) == Seq::<ConvoNode>::empty(),
        graph_edge_list(g) == Seq::<(int, int)>::empty(),
{
    Graph::with_capacity(0, 0)
}

/// Relies on Graph::add_node: appends a node and returns its index, which
/// equals the former node count. With the `usize` index type the index-cap
/// panic inside petgraph is unreachable.
#[verifier::external_body]
pub(crate) fn graph_add_node(g: &mut ConvoGraph, w: ConvoNode) -> (r: usize)
    ensures
        graph_nodes(*final(g)) == graph_nodes(*old(g)).push(w),
        graph_edge_list(*final(g)) == graph_edge_list(*old(g)),
        r == graph_nodes(*old(g)).len(),
{
    g.add_node(w).index()
}

/// Relies on Graph::add_edge: appends a directed edge from `a` to `b`. It
/// panics on a node index that is out of bounds, which the precondition
/// rules out; the edge-cap panic is unreachable with the `usize` index type.
#[verifier::external_body]
pub(crate) fn graph_add_edge(g: &mut ConvoGraph, a: usize, b: usize)
    requires
        a < graph_nodes(*old(g)).len(),
        b < graph_nodes(*old(g)).len(),
    ensures
        graph_nodes(*final(g)) == graph_nodes(*old(g)),
        graph_edge_list(*final(g)) == graph_edge_list(*old(g)).push((a as int, b as int)),
{
    g.add_edge(NodeIndex::new(a), NodeIndex::new(b), ());
}

/// Relies on Graph::node_weight: `Some` of the weight stored at an existing
/// index, `None` past the end.
#[verifier::external_body]
pub(crate) fn graph_node_weight(g: &ConvoGraph, i: usize) -> (r: Option<&ConvoNode>)
    ensures
        match r {
            Some(n) => i < graph_nodes(*g).len() && *n == graph_nodes(*g)[i as int],
            None => i >= graph_nodes(*g).len(),
        },
{
    g.node_weight(NodeIndex::new(i))
}

/// Relies on Graph::edges and its iterator: the iterator yields exactly the
/// outgoing edges of `i` (most recently added first), and is empty when `i`
/// has none or does not exist. The first yielded target is returned.
#[verifier::external_body]
pub(crate) fn graph_first_edge_target(g: &ConvoGraph, i: usize) -> (r: Option<usize>)
    ensures
        match r {
            Some(t) => exists|k: int|
                0 <= k < graph_edge_list(*g).len() && (#[trigger] graph_edge_list(*g)[k])
                    == (i as int, t as int),
            None => forall|k: int|
                0 <= k < graph_edge_list(*g).len() ==> (#[trigger] graph_edge_list(*g)[k]).0
                    != i as int,
        },
{
    g.edges(NodeIndex::new(i)).next().map(|e| e.target().index())
}

/// Relies on Graph::node_count: the number of nodes.
#[verifier::external_body]
pub(crate) fn graph_node_count(g: &ConvoGraph) -> (r: usize)
    ensures
        r == graph_nodes(*g).len(),
{
    g.node_count()
}

/// Relies on Graph::edge_count: the number of edges.
#[verifier::external_body]
pub(crate) fn graph_edge_count(g: &ConvoGraph) -> (r: usize)
    ensures
        r == graph_edge_list(*g).len(),
{
    g.edge_count()
}

} // verus!
