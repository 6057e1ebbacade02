//! The trusted boundary around the graph arena: the frame graph's nodes
//! and edges live in a `petgraph` directed graph, and everything the
//! verified logic knows about it goes through the contracts in this
//! module. Two names stand for the arena's contents — the task list and
//! the edge list, both in index order — and each wrapper states, over
//! those names, what one `petgraph` call does to them.

use vstd::prelude::*;

use crate::frame::dependency::Dependency;
use crate::frame::graph::DependencyEdge;
use crate::frame::graph::Task;

verus! {

#[verifier::external_type_specification]
#[verifier::external_body]
#[verifier::reject_recursive_types(N)]
#[verifier::reject_recursive_types(E)]
#[verifier::reject_recursive_types(Ty)]
#[verifier::reject_recursive_types(Ix)]
pub struct ExGraph<N, E, Ty, Ix>(petgraph::graph::Graph<N, E, Ty, Ix>);

#[verifier::external_type_specification]
#[verifier::external_body]
pub struct ExDirected(petgraph::Directed);

/// The graph type the frame uses: tasks on the nodes, dependencies on the
/// edges, directed, with the default 32-bit indices.
pub type TaskGraph = petgraph::graph::Graph<Task, Dependency, petgraph::Directed, u32>;

/// The tasks held on the graph's nodes, in node-index order.
pub uninterp spec fn graph_tasks(g: TaskGraph) -> Seq<Task>;

/// The edges of the graph, in edge-index order, each with the node indices
/// of its endpoints and its dependency weight.
pub uninterp spec fn graph_edge_list(g: TaskGraph) -> Seq<DependencyEdge>;

/// Relies on `petgraph::graph::Graph::new`: a graph with no nodes and no
/// edges.
#[verifier::external_body]
pub(crate) fn pg_new() -> (g: TaskGraph)
    ensures
        graph_tasks(g) == Seq::<Task>::empty(),
        graph_edge_list(g) == Seq::<DependencyEdge>::empty(),
{
    petgraph::graph::Graph::new()
}

/// Relies on `petgraph::graph::Graph::node_count`: the number of nodes.
#[verifier::external_body]
pub(crate) fn pg_task_count(g: &TaskGraph) -> (n: usize)
    ensures
        n == graph_tasks(*g).len(),
{
    g.node_count()
}

/// Relies on `petgraph::graph::Graph::edge_count`: the number of edges.
#[verifier::external_body]
pub(crate) fn pg_edge_count(g: &TaskGraph) -> (n: usize)
    ensures
        n == graph_edge_list(*g).len(),
{
    g.edge_count()
}

/// Relies on `petgraph::graph::Graph::add_node`: appends a node and
/// returns its index, the old node count. Panics at the 32-bit index
/// limit, which the precondition excludes.
#[verifier::external_body]
pub(crate) fn pg_add_task(g: &mut TaskGraph, t: Task) -> (i: usize)
    requires
        graph_tasks(*old(g)).len() < u32::MAX,
    ensures
        graph_tasks(*final(g)) == graph_tasks(*old(g)).push(t),
        graph_edge_list(*final(g)) == graph_edge_list(*old(g)),
        i == graph_tasks(*old(g)).len(),
{
    g.add_node(t).index()
}

/// Relies on `petgraph::graph::Graph::node_weight`: the task at a node
/// index; the index is in range, so the lookup succeeds.
#[verifier::external_body]
pub(crate) fn pg_task(g: &TaskGraph, i: usize) -> (r: &Task)
    requires
        i < graph_tasks(*g).len(),
    ensures
        *r == graph_tasks(*g)[i as int],
{
    g.node_weight(petgraph::graph::NodeIndex::new(i)).unwrap()
}

/// Relies on `petgraph::graph::Graph::add_edge`: appends an edge between
/// two existing nodes and returns its index, the old edge count. Panics on
/// out-of-range endpoints and at the 32-bit index limit, which the
/// preconditions exclude.
#[verifier::external_body]
pub(crate) fn pg_add_edge(g: &mut TaskGraph, src: usize, dst: usize, d: Dependency) -> (i: usize)
    requires
        src < graph_tasks(*old(g)).len(),
        dst < graph_tasks(*old(g)).len(),
        graph_edge_list(*old(g)).len() < u32::MAX,
    ensures
        graph_tasks(*final(g)) == graph_tasks(*old(g)),
        graph_edge_list(*final(g)) == graph_edge_list(*old(g)).push(
            DependencyEdge { src, dst, dependency: d },
        ),
        i == graph_edge_list(*old(g)).len(),
{
    g.add_edge(
        petgraph::graph::NodeIndex::new(src),
        petgraph::graph::NodeIndex::new(dst),
        d,
    ).index()
}

/// Relies on `petgraph::graph::Graph::edge_endpoints`: the node indices an
/// edge runs between; the index is in range, so the lookup succeeds.
#[verifier::external_body]
pub(crate) fn pg_edge_endpoints(g: &TaskGraph, i: usize) -> (r: (usize, usize))
    requires
        i < graph_edge_list(*g).len(),
    ensures
        r.0 == graph_edge_list(*g)[i as int].src,
        r.1 == graph_edge_list(*g)[i as int].dst,
{
    let (a, b) = g.edge_endpoints(petgraph::graph::EdgeIndex::new(i)).unwrap();
    (a.index(), b.index())
}

/// Relies on `petgraph::graph::Graph::edge_weight`: the dependency an edge
/// carries; the index is in range, so the lookup succeeds.
#[verifier::external_body]
pub(crate) fn pg_edge_dependency(g: &TaskGraph, i: usize) -> (r: Dependency)
    requires
        i < graph_edge_list(*g).len(),
    ensures
        r == graph_edge_list(*g)[i as int].dependency,
{
    *g.edge_weight(petgraph::graph::EdgeIndex::new(i)).unwrap()
}

/// Relies on `petgraph::graph::Graph::edge_weight_mut`: replaces the
/// dependency an edge carries, leaving its endpoints and every other node
/// and edge alone; the index is in range, so the lookup succeeds.
#[verifier::external_body]
pub(crate) fn pg_set_edge_dependency(g: &mut TaskGraph, i: usize, d: Dependency)
    requires
        i < graph_edge_list(*old(g)).len(),
    ensures
        graph_tasks(*final(g)) == graph_tasks(*old(g)),
        graph_edge_list(*final(g)) == graph_edge_list(*old(g)).update(
            i as int,
            (DependencyEdge {
                src: graph_edge_list(*old(g))[i as int].src,
                dst: graph_edge_list(*old(g))[i as int].dst,
                dependency: d,
            }),
        ),
{
    *g.edge_weight_mut(petgraph::graph::EdgeIndex::new(i)).unwrap() = d;
}

} // verus!
