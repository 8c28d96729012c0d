//! Directed graphs held in a `petgraph::Graph`, and the depth-first post-order walks
//! that the dependency resolution of this crate is built on.
//!
//! Node `i` of a graph carries the weight `i`: the position of the item it stands for
//! in a vector kept beside the graph.
use petgraph::graph::NodeIndex;
use petgraph::visit::{DfsPostOrder, Walker};
use petgraph::{Directed, Graph};
use fixedbitset::FixedBitSet;
use vstd::prelude::*;

verus! {

#[verifier::external_type_specification]
#[verifier::external_body]
#[verifier::reject_recursive_types(N)]
#[verifier::reject_recursive_types(E)]
#[verifier::reject_recursive_types(Ty)]
#[verifier::reject_recursive_types(Ix)]
pub struct ExGraph<N, E, Ty, Ix>(Graph<N, E, Ty, Ix>);

#[verifier::external_type_specification]
#[verifier::external_body]
pub struct ExDirected(Directed);

#[verifier::external_type_specification]
#[verifier::external_body]
#[verifier::reject_recursive_types(Ix)]
pub struct ExNodeIndex<Ix>(NodeIndex<Ix>);

#[verifier::external_type_specification]
#[verifier::external_body]
pub struct ExFixedBitSet(FixedBitSet);

#[verifier::external_type_specification]
#[verifier::external_body]
#[verifier::reject_recursive_types(N)]
#[verifier::reject_recursive_types(VM)]
pub struct ExDfsPostOrder<N, VM>(DfsPostOrder<N, VM>);

/// The node weights of a graph, by node index.
pub uninterp spec fn graph_nodes(g: Graph<usize, ()>) -> Seq<usize>;

/// The edges of a graph as (source, target) pairs, in the order they were added.
pub uninterp spec fn graph_edges(g: Graph<usize, ()>) -> Seq<(usize, usize)>;

/// The nodes that a post-order walk has emitted so far.
pub uninterp spec fn dfs_finished(d: DfsPostOrder<NodeIndex, FixedBitSet>) -> Set<usize>;

/// The nodes that a post-order walk has entered so far.
pub uninterp spec fn dfs_discovered(d: DfsPostOrder<NodeIndex, FixedBitSet>) -> Set<usize>;

/// The number of nodes that the visit maps of a walk were sized for.
pub uninterp spec fn dfs_capacity(d: DfsPostOrder<NodeIndex, FixedBitSet>) -> nat;

/// `(a, b)` is an edge.
pub open spec fn is_edge(edges: Seq<(usize, usize)>, a: usize, b: usize) -> bool {
    exists|k: int| 0 <= k < edges.len() && #[trigger] edges[k] == (a, b)
}

/// `p` is a non-empty path along `edges` that does not touch `avoid`.
pub open spec fn is_path_avoiding(edges: Seq<(usize, usize)>, p: Seq<usize>, avoid: Set<usize>) -> bool {
    &&& p.len() > 0
    &&& forall|i: int| 0 <= i < p.len() ==> !avoid.contains(#[trigger] p[i])
    &&& forall|i: int| 0 <= i < p.len() - 1 ==> is_edge(edges, #[trigger] p[i], p[i + 1])
}

/// `v` can be reached from `s` (possibly in no step) without touching `avoid`.
pub open spec fn reachable_avoiding(
    edges: Seq<(usize, usize)>,
    avoid: Set<usize>,
    s: usize,
    v: usize,
) -> bool {
    exists|p: Seq<usize>| #[trigger]
        is_path_avoiding(edges, p, avoid) && p[0] == s && p[p.len() - 1] == v
}

/// `v` can be reached from `s` (possibly in no step).
pub open spec fn reachable(edges: Seq<(usize, usize)>, s: usize, v: usize) -> bool {
    reachable_avoiding(edges, Set::empty(), s, v)
}

/// No path of one or more steps leads from a node back to itself.
pub open spec fn acyclic(edges: Seq<(usize, usize)>) -> bool {
    forall|p: Seq<usize>| #[trigger]
        is_path_avoiding(edges, p, Set::empty()) && p.len() > 1 ==> p[0] != p[p.len() - 1]
}

/// Every edge leaving `s` ends in `s`.
pub open spec fn closed_under(edges: Seq<(usize, usize)>, s: Set<usize>) -> bool {
    forall|k: int| 0 <= k < edges.len() && s.contains(#[trigger] edges[k].0) ==> s.contains(edges[k].1)
}

/// Every edge joins two of the `n` nodes.
pub open spec fn edges_within(edges: Seq<(usize, usize)>, n: nat) -> bool {
    forall|k: int| 0 <= k < edges.len() ==> (#[trigger] edges[k]).0 < n && edges[k].1 < n
}

/// `walk` lists each node emitted once, in post-order relative to what was emitted before:
/// where the graph has no cycle, each target of an edge from a node of `walk` was emitted
/// before (in `before` or earlier in `walk`).
pub open spec fn post_order_after(edges: Seq<(usize, usize)>, before: Set<usize>, walk: Seq<usize>) -> bool {
    acyclic(edges) ==> forall|i: int, v: usize|
        0 <= i < walk.len() && #[trigger] is_edge(edges, walk[i], v) ==> before.contains(v)
            || exists|j: int| 0 <= j < i && walk[j] == v
}

/// Creates an empty graph (`Graph::new`).
#[verifier::external_body]
pub(crate) fn graph_new() -> (g: Graph<usize, ()>)
    ensures
        graph_nodes(g) == Seq::<usize>::empty(),
        graph_edges(g) == Seq::<(usize, usize)>::empty(),
{
    Graph::new()
}

/// Adds a node (`Graph::add_node`): it gets the next index and the given weight. The
/// call panics once the `u32` node indices are used up, which `requires` rules out.
#[verifier::external_body]
pub(crate) fn graph_add_node(g: &mut Graph<usize, ()>, weight: usize) -> (idx: usize)
    requires
        graph_nodes(*old(g)).len() < u32::MAX,
    ensures
        idx == graph_nodes(*old(g)).len(),
        graph_nodes(*final(g)) == graph_nodes(*old(g)).push(weight),
        graph_edges(*final(g)) == graph_edges(*old(g)),
{
    g.add_node(weight).index()
}

/// Adds an edge from `a` to `b` (`Graph::add_edge`). The call panics where a node does not
/// exist or the `u32` edge indices are used up, which `requires` rules out.
#[verifier::external_body]
pub(crate) fn graph_add_edge(g: &mut Graph<usize, ()>, a: usize, b: usize)
    requires
        a < graph_nodes(*old(g)).len(),
        b < graph_nodes(*old(g)).len(),
        graph_edges(*old(g)).len() < u32::MAX,
    ensures
        graph_nodes(*final(g)) == graph_nodes(*old(g)),
        graph_edges(*final(g)) == graph_edges(*old(g)).push((a, b)),
{
    g.add_edge(NodeIndex::new(a), NodeIndex::new(b), ());
}

/// A walk that has visited nothing yet, with visit maps sized for the graph
/// (`DfsPostOrder::empty`).
#[verifier::external_body]
pub(crate) fn dfs_empty(g: &Graph<usize, ()>) -> (d: DfsPostOrder<NodeIndex, FixedBitSet>)
    ensures
        dfs_finished(d) == Set::<usize>::empty(),
        dfs_discovered(d) == Set::<usize>::empty(),
        dfs_capacity(d) == graph_nodes(*g).len(),
{
    DfsPostOrder::empty(g)
}

/// Restarts the walk at `start` (`DfsPostOrder::move_to`) and runs it to its end through
/// `Walker::iter`, collecting the emitted node indices.
///
/// What is claimed, as the source shows it: the walk enters exactly the nodes that can be
/// reached from `start` without touching a node entered before, emits each of them once
/// and marks them finished; on a graph without cycles each node comes after all the nodes
/// it has an edge to (the documented post-order). The visit maps are fixed bit sets that
/// panic on an index past their size, which `requires` rules out.
#[verifier::external_body]
pub(crate) fn dfs_walk_from(
    d: &mut DfsPostOrder<NodeIndex, FixedBitSet>,
    g: &Graph<usize, ()>,
    start: usize,
) -> (walk: Vec<usize>)
    requires
        start < graph_nodes(*g).len(),
        dfs_capacity(*old(d)) == graph_nodes(*g).len(),
        dfs_discovered(*old(d)) == dfs_finished(*old(d)),
        edges_within(graph_edges(*g), graph_nodes(*g).len()),
    ensures
        walk@.no_duplicates(),
        forall|v: usize|
            walk@.contains(v) <==> reachable_avoiding(graph_edges(*g), dfs_finished(*old(d)), start, v),
        post_order_after(graph_edges(*g), dfs_finished(*old(d)), walk@),
        dfs_finished(*final(d)) == dfs_finished(*old(d)).union(walk@.to_set()),
        dfs_discovered(*final(d)) == dfs_finished(*final(d)),
        dfs_capacity(*final(d)) == dfs_capacity(*old(d)),
{
    d.move_to(NodeIndex::new(start));
    d.iter(g).map(|n| n.index()).collect()
}

/// A path avoiding `avoid` can be followed by one more edge into a node outside `avoid`.
pub proof fn lemma_path_extend(edges: Seq<(usize, usize)>, avoid: Set<usize>, s: usize, u: usize, v: usize)
    requires
        reachable_avoiding(edges, avoid, s, u),
        is_edge(edges, u, v),
        !avoid.contains(v),
    ensures
        reachable_avoiding(edges, avoid, s, v),
{
    let p = choose|p: Seq<usize>| #[trigger]
        is_path_avoiding(edges, p, avoid) && p[0] == s && p[p.len() - 1] == u;
    let q = p.push(v);
    assert forall|i: int| 0 <= i < q.len() - 1 implies is_edge(edges, #[trigger] q[i], q[i + 1]) by {
        if i < p.len() - 1 {
            assert(q[i] == p[i] && q[i + 1] == p[i + 1]);
        }
    }
    assert(is_path_avoiding(edges, q, avoid));
}

/// Along edges that join the first `n` nodes, only those nodes can be reached from one of them.
pub proof fn lemma_reachable_within(edges: Seq<(usize, usize)>, n: nat, avoid: Set<usize>, s: usize, v: usize)
    requires
        edges_within(edges, n),
        s < n,
        reachable_avoiding(edges, avoid, s, v),
    ensures
        v < n,
{
    let p = choose|p: Seq<usize>| #[trigger]
        is_path_avoiding(edges, p, avoid) && p[0] == s && p[p.len() - 1] == v;
    if p.len() > 1 {
        let i = p.len() - 2;
        assert(is_edge(edges, p[i], p[i + 1]));
        let k = choose|k: int| 0 <= k < edges.len() && #[trigger] edges[k] == (p[i], p[i + 1]);
        assert(edges[k].1 < n);
    }
}

/// A path that avoids a set avoids every smaller set.
pub proof fn lemma_avoiding_subset(
    edges: Seq<(usize, usize)>,
    small: Set<usize>,
    big: Set<usize>,
    s: usize,
    v: usize,
)
    requires
        small.subset_of(big),
        reachable_avoiding(edges, big, s, v),
    ensures
        reachable_avoiding(edges, small, s, v),
{
    let p = choose|p: Seq<usize>| #[trigger]
        is_path_avoiding(edges, p, big) && p[0] == s && p[p.len() - 1] == v;
    assert(is_path_avoiding(edges, p, small));
}

/// If `done` is closed under the edges and a path from `s` reaches `v`, then `v` is in
/// `done` or reachable from `s` without touching `done`.
pub proof fn lemma_reachable_split(edges: Seq<(usize, usize)>, done: Set<usize>, s: usize, v: usize)
    requires
        closed_under(edges, done),
        reachable(edges, s, v),
    ensures
        done.contains(v) || reachable_avoiding(edges, done, s, v),
{
    let p = choose|p: Seq<usize>| #[trigger]
        is_path_avoiding(edges, p, Set::empty()) && p[0] == s && p[p.len() - 1] == v;
    lemma_path_prefix_split(edges, done, p, (p.len() - 1) as nat);
}

proof fn lemma_path_prefix_split(edges: Seq<(usize, usize)>, done: Set<usize>, p: Seq<usize>, k: nat)
    requires
        closed_under(edges, done),
        is_path_avoiding(edges, p, Set::empty()),
        k < p.len(),
    ensures
        done.contains(p[k as int]) || reachable_avoiding(edges, done, p[0], p[k as int]),
    decreases k,
{
    if k == 0 {
        if !done.contains(p[0]) {
            let q = seq![p[0]];
            assert(is_path_avoiding(edges, q, done));
        }
    } else {
        lemma_path_prefix_split(edges, done, p, (k - 1) as nat);
        let u = p[k - 1];
        let v = p[k as int];
        assert(is_edge(edges, p[k - 1], p[k - 1 + 1]));
        if done.contains(u) {
            let e = choose|e: int| 0 <= e < edges.len() && #[trigger] edges[e] == (u, v);
            assert(done.contains(edges[e].0));
        } else if !done.contains(v) {
            lemma_path_extend(edges, done, p[0], u, v);
        }
    }
}

} // verus!
