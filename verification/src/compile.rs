//! The compiler: from the node list of one event, function or method to the
//! linear order in which the machine executes it.
//!
//! A node list becomes a graph with an edge from each node to its
//! `next_node` and from the producer of each input link to its consumer. The
//! execution order is a topological order of that graph; the terminal nodes
//! are the nodes that no edge leaves.

use vstd::prelude::*;
use petgraph::graph::Graph;
use petgraph::Directed;
use crate::ast;
use crate::ast::{find, find_by_guid, lemma_position, position, Link, Node, ReferenceView, GUID};
use crate::error::{VmError, VmErrorView};
use crate::graph::{
    graph_add_edge,
    graph_add_node,
    graph_edges,
    graph_new,
    graph_nodes,
    graph_sinks,
    graph_toposort,
    has_cycle,
    indices_view,
    is_topological_order,
    lemma_sinks_of,
    sinks_of,
    toposort_order,
};

verus! {

/// The message of the error for a node list whose graph has a cycle.
pub open spec fn cyclic_message() -> Seq<char> {
    "Found flow graph to be cyclic"@
}

/// The message of the error for a node list with more nodes or edges than
/// the graph can number.
pub open spec fn too_large_message() -> Seq<char> {
    "Flow graph is too large"@
}

/// The most nodes, and the most edges, that a graph holds.
pub open spec fn graph_limit() -> int {
    u32::MAX as int
}

/// `edges` and the edge from the node at `at` to its `next_node`, if it has
/// one. A `next_node` that names no node of the list is an error.
pub open spec fn next_edge(nodes: Seq<Node>, at: int, edges: Seq<(int, int)>) -> Result<
    Seq<(int, int)>,
    VmErrorView,
> {
    match nodes[at].next_node@ {
        ReferenceView::Unset => Ok(edges),
        reference => match position(nodes, reference) {
            None => Err(VmErrorView::NodeDoesNotExists(reference)),
            Some(target) => if edges.len() >= graph_limit() {
                Err(VmErrorView::CompilationError(too_large_message()))
            } else {
                Ok(edges.push((at, target)))
            },
        },
    }
}

/// `edges` and, for each input link of the node at `at` from the link
/// `from_link` on, the edge from the link's producer to the node. A link to
/// an identifier that no node of the list has is an error.
pub open spec fn link_edges(
    nodes: Seq<Node>,
    at: int,
    from_link: int,
    edges: Seq<(int, int)>,
) -> Result<Seq<(int, int)>, VmErrorView>
    decreases nodes[at].input_links@.len() - from_link,
{
    let links = nodes[at].input_links@;
    if from_link < 0 || from_link >= links.len() {
        Ok(edges)
    } else {
        match links[from_link] {
            Link::Unlinked => link_edges(nodes, at, from_link + 1, edges),
            Link::NodeIndexed(guid, _) => match position(nodes, ReferenceView::Guid(guid)) {
                None => Err(VmErrorView::NodeDoesNotExists(ReferenceView::Guid(guid))),
                Some(producer) => if edges.len() >= graph_limit() {
                    Err(VmErrorView::CompilationError(too_large_message()))
                } else {
                    link_edges(nodes, at, from_link + 1, edges.push((producer, at)))
                },
            },
        }
    }
}

/// `edges` and the edges of the nodes from the node at `at` on.
pub open spec fn edges_from(nodes: Seq<Node>, at: int, edges: Seq<(int, int)>) -> Result<
    Seq<(int, int)>,
    VmErrorView,
>
    decreases nodes.len() - at,
{
    if at < 0 || at >= nodes.len() {
        Ok(edges)
    } else {
        match next_edge(nodes, at, edges) {
            Err(error) => Err(error),
            Ok(with_next) => edges_after_links(nodes, at, 0, with_next),
        }
    }
}

/// `edges`, the edges of the input links of the node at `at` from the link
/// `from_link` on, and the edges of the nodes after it.
pub open spec fn edges_after_links(
    nodes: Seq<Node>,
    at: int,
    from_link: int,
    edges: Seq<(int, int)>,
) -> Result<Seq<(int, int)>, VmErrorView>
    decreases nodes.len() - at, 0int,
{
    if at < 0 || at >= nodes.len() {
        Ok(edges)
    } else {
        match link_edges(nodes, at, from_link, edges) {
            Err(error) => Err(error),
            Ok(with_links) => edges_from(nodes, at + 1, with_links),
        }
    }
}

/// The dependency edges of a node list, as pairs of node indices.
pub open spec fn edges_of(nodes: Seq<Node>) -> Result<Seq<(int, int)>, VmErrorView> {
    edges_from(nodes, 0, Seq::empty())
}

/// The dependency edges of a node list whose references all resolve.
pub open spec fn dependency_edges(nodes: Seq<Node>) -> Seq<(int, int)> {
    match edges_of(nodes) {
        Ok(edges) => edges,
        Err(_) => Seq::empty(),
    }
}

/// The identifiers of the nodes at `indices`.
pub open spec fn guids_at(nodes: Seq<Node>, indices: Seq<int>) -> Seq<GUID> {
    Seq::new(indices.len(), |k: int| nodes[indices[k]].guid)
}

/// What compiling a node list gives: its execution order and its terminal
/// nodes, or the error that stops it.
pub open spec fn compiled(nodes: Seq<Node>) -> Result<(Seq<GUID>, Seq<GUID>), VmErrorView> {
    if nodes.len() > graph_limit() {
        Err(VmErrorView::CompilationError(too_large_message()))
    } else {
        match edges_of(nodes) {
            Err(error) => Err(error),
            Ok(edges) => match toposort_order(nodes.len(), edges) {
                None => Err(VmErrorView::CompilationError(cyclic_message())),
                Some(order) => Ok(
                    (guids_at(nodes, order), guids_at(nodes, sinks_of(nodes.len(), edges))),
                ),
            },
        }
    }
}

/// An appended element is in the sequence, and so is all that was in it.
proof fn lemma_push_keeps(edges: Seq<(int, int)>, edge: (int, int))
    ensures
        edges.push(edge).contains(edge),
        forall|other: (int, int)| edges.contains(other) ==> edges.push(edge).contains(other),
{
    assert(edges.push(edge)[edges.len() as int] == edge);
    assert forall|other: (int, int)| edges.contains(other) implies edges.push(edge).contains(
        other,
    ) by {
        let k = choose|k: int| 0 <= k < edges.len() && edges[k] == other;
        assert(edges.push(edge)[k] == other);
    }
}

/// Whether input link `link` of the node at `consumer` names an output of
/// the node at `producer`.
pub open spec fn depends_on(nodes: Seq<Node>, consumer: int, link: int, producer: int) -> bool {
    &&& 0 <= consumer < nodes.len()
    &&& 0 <= link < nodes[consumer].input_links@.len()
    &&& nodes[consumer].input_links@[link] matches Link::NodeIndexed(guid, _)
    &&& position(nodes, ReferenceView::Guid(guid)) == Some(producer)
}

/// Whether the node at `from` has the node at `to` as its `next_node`.
pub open spec fn leads_to(nodes: Seq<Node>, from: int, to: int) -> bool {
    &&& 0 <= from < nodes.len()
    &&& !(nodes[from].next_node@ is Unset)
    &&& position(nodes, nodes[from].next_node@) == Some(to)
}

/// The edges of the links of a node hold what was there and, for each link
/// from `from_link` on, the edge from the link's producer to the node.
proof fn lemma_link_edges(nodes: Seq<Node>, at: int, from_link: int, edges: Seq<(int, int)>)
    requires
        0 <= at < nodes.len(),
        0 <= from_link,
    ensures
        link_edges(nodes, at, from_link, edges) matches Ok(all) ==> (forall|edge: (int, int)|
            edges.contains(edge) ==> all.contains(edge)) && (forall|link: int, producer: int|
            from_link <= link && #[trigger] depends_on(nodes, at, link, producer) ==> all.contains(
                (producer, at),
            )),
    decreases nodes[at].input_links@.len() - from_link,
{
    let links = nodes[at].input_links@;
    if from_link < links.len() {
        match links[from_link] {
            Link::Unlinked => {
                lemma_link_edges(nodes, at, from_link + 1, edges);
            },
            Link::NodeIndexed(guid, _) => {
                match position(nodes, ReferenceView::Guid(guid)) {
                    None => {},
                    Some(producer) => {
                        if edges.len() < graph_limit() {
                            let more = edges.push((producer, at));
                            lemma_push_keeps(edges, (producer, at));
                            lemma_link_edges(nodes, at, from_link + 1, more);
                        }
                    },
                }
            },
        }
    }
}

/// The edges of a node list hold what was there and, for each node from
/// `at` on, the edge to its `next_node` and the edges from the producers of
/// its inputs.
proof fn lemma_edges_from(nodes: Seq<Node>, at: int, edges: Seq<(int, int)>)
    requires
        0 <= at,
    ensures
        edges_from(nodes, at, edges) matches Ok(all) ==> (forall|edge: (int, int)|
            edges.contains(edge) ==> all.contains(edge)) && (forall|
            consumer: int,
            link: int,
            producer: int,
        |
            at <= consumer && #[trigger] depends_on(nodes, consumer, link, producer)
                ==> all.contains((producer, consumer))) && (forall|from: int, to: int|
            at <= from && #[trigger] leads_to(nodes, from, to) ==> all.contains((from, to))),
    decreases nodes.len() - at,
{
    if at < nodes.len() {
        match next_edge(nodes, at, edges) {
            Err(_) => {},
            Ok(with_next) => {
                if !(nodes[at].next_node@ is Unset) {
                    let to = position(nodes, nodes[at].next_node@)->Some_0;
                    lemma_push_keeps(edges, (at, to));
                }
                lemma_link_edges(nodes, at, 0, with_next);
                match link_edges(nodes, at, 0, with_next) {
                    Err(_) => {},
                    Ok(with_links) => {
                        lemma_edges_from(nodes, at + 1, with_links);
                    },
                }
            },
        }
    }
}

/// Every data dependency and every `next_node` of a node list is an edge of
/// its graph, so a topological order of the graph lists the producer of
/// each input before its consumer and each node before its `next_node`.
pub proof fn lemma_order_respects_dependencies(nodes: Seq<Node>, order: Seq<int>)
    requires
        edges_of(nodes) is Ok,
        is_topological_order(order, nodes.len(), dependency_edges(nodes)),
    ensures
        forall|consumer: int, link: int, producer: int, i: int, j: int|
            #[trigger] depends_on(nodes, consumer, link, producer) && 0 <= i < order.len() && 0
                <= j < order.len() && #[trigger] order[i] == producer && #[trigger] order[j]
                == consumer ==> i < j,
        forall|from: int, to: int, i: int, j: int|
            #[trigger] leads_to(nodes, from, to) && 0 <= i < order.len() && 0 <= j < order.len()
                && #[trigger] order[i] == from && #[trigger] order[j] == to ==> i < j,
{
    lemma_edges_from(nodes, 0, Seq::empty());
}

/// The identifiers of the nodes at `indices`.
pub fn guids_of(nodes: &Vec<Node>, indices: &Vec<usize>) -> (guids: Vec<GUID>)
    requires
        forall|k: int| 0 <= k < indices@.len() ==> #[trigger] indices@[k] < nodes@.len(),
    ensures
        guids@ == guids_at(nodes@, indices_view(indices@)),
{
    let mut guids: Vec<GUID> = Vec::new();
    let mut k: usize = 0;
    while k < indices.len()
        invariant
            0 <= k <= indices@.len(),
            guids@.len() == k,
            forall|j: int| 0 <= j < indices@.len() ==> #[trigger] indices@[j] < nodes@.len(),
            forall|j: int| 0 <= j < k ==> #[trigger] guids@[j] == nodes@[indices@[j] as int].guid,
        decreases indices@.len() - k,
    {
        guids.push(nodes[indices[k]].guid);
        k += 1;
    }
    assert(guids@ =~= guids_at(nodes@, indices_view(indices@)));
    guids
}

/// The execution order for the outcome `sorted` of sorting the graph of
/// `nodes` topologically: the identifiers of the nodes in the sorted order,
/// or the error for a cyclic graph where there is no order.
pub fn execution_order(nodes: &Vec<Node>, sorted: Option<Vec<usize>>) -> (order: Result<
    Vec<GUID>,
    VmError,
>)
    requires
        sorted matches Some(list) ==> forall|k: int|
            0 <= k < list@.len() ==> #[trigger] list@[k] < nodes@.len(),
    ensures
        match sorted {
            Some(list) => order matches Ok(guids) && guids@ == guids_at(
                nodes@,
                indices_view(list@),
            ),
            None => order matches Err(error) && error@ == VmErrorView::CompilationError(
                cyclic_message(),
            ),
        },
{
    match sorted {
        Some(list) => Ok(guids_of(nodes, &list)),
        None => Err(VmError::CompilationError("Found flow graph to be cyclic".to_owned())),
    }
}

/// Builds the dependency graph of `nodes`.
fn build_graph(nodes: &Vec<Node>) -> (built: Result<Graph<GUID, (), Directed, u32>, VmError>)
    requires
        nodes@.len() <= graph_limit(),
    ensures
        match edges_of(nodes@) {
            Ok(edges) => built matches Ok(graph) && graph_nodes(graph).len() == nodes@.len()
                && graph_edges(graph) == edges,
            Err(error) => built matches Err(e) && e@ == error,
        },
{
    let mut graph = graph_new();
    let mut at: usize = 0;
    while at < nodes.len()
        invariant
            0 <= at <= nodes@.len(),
            nodes@.len() <= graph_limit(),
            graph_nodes(graph).len() == at,
            graph_edges(graph) == Seq::<(int, int)>::empty(),
        decreases nodes@.len() - at,
    {
        let _ = graph_add_node(&mut graph, nodes[at].guid);
        at += 1;
    }
    let mut count: usize = 0;
    at = 0;
    while at < nodes.len()
        invariant
            0 <= at <= nodes@.len(),
            graph_nodes(graph).len() == nodes@.len(),
            count == graph_edges(graph).len(),
            count <= graph_limit(),
            edges_of(nodes@) == edges_from(nodes@, at as int, graph_edges(graph)),
        decreases nodes@.len() - at,
    {
        let node = &nodes[at];
        match &node.next_node {
            ast::Reference::Unset => {},
            reference => {
                match find(nodes, reference) {
                    None => {
                        return Err(VmError::NodeDoesNotExists(reference.clone()));
                    },
                    Some(target) => {
                        if count >= u32::MAX as usize {
                            return Err(
                                VmError::CompilationError("Flow graph is too large".to_owned()),
                            );
                        }
                        graph_add_edge(&mut graph, at, target);
                        count += 1;
                    },
                }
            },
        }
        let mut link: usize = 0;
        while link < node.input_links.len()
            invariant
                0 <= at < nodes@.len(),
                *node == nodes@[at as int],
                0 <= link <= node.input_links@.len(),
                graph_nodes(graph).len() == nodes@.len(),
                count == graph_edges(graph).len(),
                count <= graph_limit(),
                edges_of(nodes@) == edges_after_links(
                    nodes@,
                    at as int,
                    link as int,
                    graph_edges(graph),
                ),
            decreases node.input_links@.len() - link,
        {
            match node.input_links[link] {
                Link::Unlinked => {},
                Link::NodeIndexed(guid, _) => {
                    proof {
                        lemma_position(nodes@, ReferenceView::Guid(guid));
                    }
                    match find_by_guid(nodes, guid) {
                        None => {
                            return Err(VmError::NodeDoesNotExists(ast::Reference::Guid(guid)));
                        },
                        Some(producer) => {
                            if count >= u32::MAX as usize {
                                return Err(
                                    VmError::CompilationError(
                                        "Flow graph is too large".to_owned(),
                                    ),
                                );
                            }
                            graph_add_edge(&mut graph, producer, at);
                            count += 1;
                        },
                    }
                },
            }
            link += 1;
        }
        at += 1;
    }
    Ok(graph)
}

/// Compiles a node list: its execution order and its terminal nodes.
///
/// A list whose references all resolve and whose graph has no cycle always
/// compiles, and its order lists every node once, each after the nodes it
/// follows and the producers of its inputs. A list whose graph has a cycle
/// never compiles.
pub fn compile_nodes(nodes: &Vec<Node>) -> (result: Result<(Vec<GUID>, Vec<GUID>), VmError>)
    ensures
        match compiled(nodes@) {
            Ok((order, terminals)) => result matches Ok(lists) && lists.0@ == order && lists.1@
                == terminals,
            Err(error) => result matches Err(e) && e@ == error,
        },
        nodes@.len() <= graph_limit() && edges_of(nodes@) is Ok ==> (result is Ok <==> !has_cycle(
            dependency_edges(nodes@),
        )),
        nodes@.len() <= graph_limit() && edges_of(nodes@) is Ok && has_cycle(
            dependency_edges(nodes@),
        ) ==> (result matches Err(e) && e@ == VmErrorView::CompilationError(cyclic_message())),
        result matches Ok(lists) ==> (toposort_order(
            nodes@.len(),
            dependency_edges(nodes@),
        ) matches Some(order) && is_topological_order(
            order,
            nodes@.len(),
            dependency_edges(nodes@),
        ) && lists.0@ == guids_at(nodes@, order)),
{
    if nodes.len() > u32::MAX as usize {
        return Err(VmError::CompilationError("Flow graph is too large".to_owned()));
    }
    let graph = build_graph(nodes)?;
    let sorted = graph_toposort(&graph);
    let ghost edges = graph_edges(graph);
    proof {
        if sorted is Some {
            let list = sorted->Some_0;
            let sorted_indices = indices_view(list@);
            assert forall|k: int| 0 <= k < list@.len() implies #[trigger] list@[k]
                < nodes@.len() by {
                assert(0 <= sorted_indices[k] < nodes@.len());
            }
        }
    }
    let order = execution_order(nodes, sorted)?;
    let sinks = graph_sinks(&graph);
    proof {
        lemma_sinks_of(nodes@.len(), edges);
        let sink_indices = sinks_of(nodes@.len(), edges);
        assert forall|k: int| 0 <= k < sinks@.len() implies #[trigger] sinks@[k]
            < nodes@.len() by {
            assert(indices_view(sinks@)[k] == sinks@[k]);
            assert(0 <= sink_indices[k] < nodes@.len());
        }
        assert(is_topological_order(
            toposort_order(nodes@.len(), edges)->Some_0,
            nodes@.len(),
            edges,
        ));
    }
    let terminals = guids_of(nodes, &sinks);
    Ok((order, terminals))
}

} // verus!
