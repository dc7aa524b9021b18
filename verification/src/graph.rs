//! Dependency graphs of node lists.
//!
//! The graph itself is kept by `petgraph`; this module states what the
//! machine relies on: which nodes and edges a graph holds, what a
//! topological order is, and what a cycle is.

use vstd::prelude::*;
use petgraph::graph::{Graph, NodeIndex};
use petgraph::{Directed, Direction};
use crate::ast::GUID;

verus! {

#[verifier::external_type_specification]
#[verifier::external_body]
#[verifier::reject_recursive_types(N)]
#[verifier::reject_recursive_types(E)]
#[verifier::reject_recursive_types(Ty)]
#[verifier::reject_recursive_types(Ix)]
pub struct ExGraph<N, E, Ty, Ix>(Graph<N, E, Ty, Ix>);

#[verifier::external_type_specification]
#[verifier::external_body]
pub struct ExDirected(Directed);

/// The weights of the nodes of a graph, by node index.
pub uninterp spec fn graph_nodes(graph: Graph<GUID, (), Directed, u32>) -> Seq<GUID>;

/// The edges of a graph as pairs of node indices (from, to), in the order in
/// which they were added.
pub uninterp spec fn graph_edges(graph: Graph<GUID, (), Directed, u32>) -> Seq<(int, int)>;

/// The order in which `petgraph::algo::toposort` lists the nodes of the
/// graph with `node_count` nodes and the edges `edges`, or `None` where it
/// reports a cycle.
pub uninterp spec fn toposort_order(node_count: nat, edges: Seq<(int, int)>) -> Option<Seq<int>>;

/// Whether `walk` follows edges: at least one step, each along an edge.
pub open spec fn is_walk(edges: Seq<(int, int)>, walk: Seq<int>) -> bool {
    &&& walk.len() >= 2
    &&& forall|k: int| 0 <= k < walk.len() - 1 ==> edges.contains((#[trigger] walk[k], walk[k + 1]))
}

/// Whether some walk along the edges returns to where it started. An edge
/// from a node to itself is a cycle.
pub open spec fn has_cycle(edges: Seq<(int, int)>) -> bool {
    exists|walk: Seq<int>| #[trigger] is_walk(edges, walk) && walk[0] == walk[walk.len() - 1]
}

/// Whether `order` lists each of the `node_count` nodes once and every node
/// before its successors.
pub open spec fn is_topological_order(order: Seq<int>, node_count: nat, edges: Seq<(int, int)>) -> bool {
    &&& order.len() == node_count
    &&& forall|i: int| 0 <= i < order.len() ==> 0 <= #[trigger] order[i] < node_count
    &&& order.no_duplicates()
    &&& forall|i: int, j: int|
        0 <= i < order.len() && 0 <= j < order.len() && edges.contains(
            (#[trigger] order[i], #[trigger] order[j]),
        ) ==> i < j
}

/// Whether an edge leaves `node`.
pub open spec fn has_successor(edges: Seq<(int, int)>, node: int) -> bool {
    exists|k: int| 0 <= k < edges.len() && (#[trigger] edges[k]).0 == node
}

/// The nodes that no edge leaves, in increasing order.
pub open spec fn sinks_of(node_count: nat, edges: Seq<(int, int)>) -> Seq<int>
    decreases node_count,
{
    if node_count == 0 {
        Seq::empty()
    } else {
        let last = node_count - 1;
        let before = sinks_of(last as nat, edges);
        if has_successor(edges, last) {
            before
        } else {
            before.push(last)
        }
    }
}

/// Every sink is a node, and no edge leaves it.
pub proof fn lemma_sinks_of(node_count: nat, edges: Seq<(int, int)>)
    ensures
        sinks_of(node_count, edges).len() <= node_count,
        forall|k: int|
            0 <= k < sinks_of(node_count, edges).len() ==> 0 <= #[trigger] sinks_of(
                node_count,
                edges,
            )[k] < node_count && !has_successor(edges, sinks_of(node_count, edges)[k]),
    decreases node_count,
{
    if node_count > 0 {
        lemma_sinks_of((node_count - 1) as nat, edges);
    }
}

/// Indices of executable code as the integers that contracts speak of.
pub open spec fn indices_view(indices: Seq<usize>) -> Seq<int> {
    Seq::new(indices.len(), |i: int| indices[i] as int)
}

/// `Graph::new`: a directed graph without nodes or edges.
#[verifier::external_body]
pub(crate) fn graph_new() -> (graph: Graph<GUID, (), Directed, u32>)
    ensures
        graph_nodes(graph) == Seq::<GUID>::empty(),
        graph_edges(graph) == Seq::<(int, int)>::empty(),
{
    Graph::new()
}

/// `Graph::add_node`: appends a node with the weight `weight` and returns its
/// index, the number of nodes before the call. The edges stay. The graph
/// panics on a node beyond the range of its 32-bit indices.
#[verifier::external_body]
pub(crate) fn graph_add_node(graph: &mut Graph<GUID, (), Directed, u32>, weight: GUID) -> (index:
    usize)
    requires
        graph_nodes(*old(graph)).len() < u32::MAX,
    ensures
        index == graph_nodes(*old(graph)).len(),
        graph_nodes(*final(graph)) == graph_nodes(*old(graph)).push(weight),
        graph_edges(*final(graph)) == graph_edges(*old(graph)),
{
    graph.add_node(weight).index()
}

/// `Graph::add_edge`: appends an edge from the node `from` to the node `to`.
/// The nodes stay. The graph panics where an end is no node of it, and on an
/// edge beyond the range of its 32-bit indices.
#[verifier::external_body]
pub(crate) fn graph_add_edge(graph: &mut Graph<GUID, (), Directed, u32>, from: usize, to: usize)
    requires
        from < graph_nodes(*old(graph)).len(),
        to < graph_nodes(*old(graph)).len(),
        graph_edges(*old(graph)).len() < u32::MAX,
    ensures
        graph_nodes(*final(graph)) == graph_nodes(*old(graph)),
        graph_edges(*final(graph)) == graph_edges(*old(graph)).push((from as int, to as int)),
{
    graph.add_edge(NodeIndex::new(from), NodeIndex::new(to), ());
}

/// `petgraph::algo::toposort`: for a graph without a cycle, the nodes in an
/// order that lists every node once and before its successors; for a graph
/// with a cycle, nothing. Which of the topological orders comes out is a
/// matter of the graph alone: [`toposort_order`] names it.
#[verifier::external_body]
pub(crate) fn graph_toposort(graph: &Graph<GUID, (), Directed, u32>) -> (order: Option<Vec<usize>>)
    ensures
        match order {
            Some(list) => toposort_order(graph_nodes(*graph).len(), graph_edges(*graph)) == Some(
                indices_view(list@),
            ),
            None => toposort_order(graph_nodes(*graph).len(), graph_edges(*graph)) is None,
        },
        order is None <==> has_cycle(graph_edges(*graph)),
        order matches Some(list) ==> is_topological_order(
            indices_view(list@),
            graph_nodes(*graph).len(),
            graph_edges(*graph),
        ),
{
    match petgraph::algo::toposort(graph, None) {
        Ok(list) => Some(list.into_iter().map(|index| index.index()).collect()),
        Err(_) => None,
    }
}

/// `Graph::externals` with `Direction::Outgoing`: the nodes that no edge
/// leaves, by increasing index.
#[verifier::external_body]
pub(crate) fn graph_sinks(graph: &Graph<GUID, (), Directed, u32>) -> (sinks: Vec<usize>)
    ensures
        indices_view(sinks@) == sinks_of(graph_nodes(*graph).len(), graph_edges(*graph)),
{
    graph.externals(Direction::Outgoing).map(|index| index.index()).collect()
}

} // verus!
