//! Dependency graphs of buildpacks, and the topological order of a set of buildpacks and
//! everything they depend on.
use crate::buildpack_id::BuildpackId;
use crate::graph::{
    acyclic, dfs_capacity, dfs_discovered, dfs_empty, dfs_finished, dfs_walk_from,
    edges_within, graph_add_edge, graph_add_node, graph_edges, graph_new, graph_nodes, is_edge,
    lemma_avoiding_subset, lemma_path_extend, lemma_reachable_split, reachable,
    reachable_avoiding, closed_under,
};
use petgraph::Graph;
use vstd::prelude::*;

verus! {

/// The views of a sequence of buildpack IDs.
pub open spec fn id_views(ids: Seq<BuildpackId>) -> Seq<Seq<char>> {
    ids.map_values(|id: BuildpackId| id@)
}

/// A node of a dependency graph: it has an ID and depends on the nodes with the given IDs.
pub trait DependencyNode<E>: Sized {
    /// The ID of the node.
    spec fn node_id(&self) -> Seq<char>;

    /// The IDs of the nodes this node depends on; `None` where they cannot be gathered.
    spec fn node_dependencies(&self) -> Option<Seq<Seq<char>>>;

    /// `e` is an error that gathering the dependencies of this node can give.
    spec fn is_dependencies_error(&self, e: E) -> bool;

    fn id(&self) -> (r: BuildpackId)
        ensures
            r@ == self.node_id(),
    ;

    /// The dependencies of a node.
    fn dependencies(&self) -> (r: Result<Vec<BuildpackId>, E>)
        ensures
            match r {
                Ok(v) => self.node_dependencies() == Some(id_views(v@)),
                Err(e) => self.node_dependencies() is None && self.is_dependencies_error(e),
            },
    ;
}

/// The IDs of a sequence of nodes.
pub open spec fn node_ids<T: DependencyNode<E>, E>(nodes: Seq<T>) -> Seq<Seq<char>> {
    nodes.map_values(|n: T| n.node_id())
}

/// Every ID in `deps` names one of `ids`.
pub open spec fn resolvable(ids: Seq<Seq<char>>, deps: Seq<Seq<char>>) -> bool {
    forall|k: int| 0 <= k < deps.len() ==> ids.contains(#[trigger] deps[k])
}

/// The first position of `id` in `ids`.
pub open spec fn position_of(ids: Seq<Seq<char>>, id: Seq<char>) -> usize {
    ids.index_of_first(id)->0 as usize
}

/// The edges from node `i` to the first node with each of the IDs in `deps`, in order.
pub open spec fn dependency_edges(ids: Seq<Seq<char>>, i: usize, deps: Seq<Seq<char>>) -> Seq<(usize, usize)> {
    deps.map_values(|d: Seq<char>| (i, position_of(ids, d)))
}

/// The first `upto` nodes could give their dependencies, and each names a node.
pub open spec fn nodes_resolved<T: DependencyNode<E>, E>(nodes: Seq<T>, upto: int) -> bool {
    forall|j: int|
        0 <= j < upto ==> #[trigger] nodes[j].node_dependencies() is Some && resolvable(
            node_ids(nodes),
            nodes[j].node_dependencies()->0,
        )
}

/// The edges of the first `upto` nodes, node by node.
pub open spec fn edges_upto<T: DependencyNode<E>, E>(nodes: Seq<T>, upto: nat) -> Seq<(usize, usize)>
    decreases upto,
{
    if upto == 0 {
        Seq::empty()
    } else {
        let i = (upto - 1) as nat;
        edges_upto(nodes, i) + dependency_edges(
            node_ids(nodes),
            i as usize,
            nodes[i as int].node_dependencies()->0,
        )
    }
}

/// The number of dependencies that the first `upto` nodes declare, counting none for a
/// node whose dependencies cannot be gathered.
pub open spec fn dependency_total<T: DependencyNode<E>, E>(nodes: Seq<T>, upto: nat) -> nat
    decreases upto,
{
    if upto == 0 {
        0
    } else {
        let i = (upto - 1) as nat;
        dependency_total(nodes, i) + match nodes[i as int].node_dependencies() {
            Some(d) => d.len(),
            None => 0,
        }
    }
}

proof fn lemma_dependency_total_mono<T: DependencyNode<E>, E>(nodes: Seq<T>, i: nat, n: nat)
    requires
        i <= n,
    ensures
        dependency_total(nodes, i) <= dependency_total(nodes, n),
    decreases n - i,
{
    if i < n {
        lemma_dependency_total_mono(nodes, i, (n - 1) as nat);
    }
}

proof fn lemma_edges_upto_len<T: DependencyNode<E>, E>(nodes: Seq<T>, i: nat)
    requires
        nodes_resolved(nodes, i as int),
        i <= nodes.len(),
    ensures
        edges_upto(nodes, i).len() == dependency_total(nodes, i),
    decreases i,
{
    if i > 0 {
        assert(nodes_resolved(nodes, i - 1));
        lemma_edges_upto_len(nodes, (i - 1) as nat);
        assert(nodes[i - 1].node_dependencies() is Some);
    }
}

/// `order` lists, each once, the nodes that can be reached from one of `roots` (the roots
/// themselves among them); where the graph has no cycle, every node comes after all the
/// nodes it has an edge to.
pub open spec fn dependency_order(edges: Seq<(usize, usize)>, roots: Seq<usize>, order: Seq<usize>) -> bool {
    &&& order.no_duplicates()
    &&& forall|v: usize|
        order.contains(v) <==> exists|k: int| 0 <= k < roots.len() && #[trigger] reachable(edges, roots[k], v)
    &&& forall|i: int, v: usize|
        acyclic(edges) && 0 <= i < order.len() && #[trigger] is_edge(edges, order[i], v)
            ==> exists|j: int| 0 <= j < i && order[j] == v
}

/// Every root is in the order: a node reaches itself.
pub proof fn lemma_dependency_order_contains_roots(edges: Seq<(usize, usize)>, roots: Seq<usize>, order: Seq<usize>)
    requires
        dependency_order(edges, roots, order),
    ensures
        forall|k: int| 0 <= k < roots.len() ==> order.contains(#[trigger] roots[k]),
{
    assert forall|k: int| 0 <= k < roots.len() implies order.contains(#[trigger] roots[k]) by {
        let p = seq![roots[k]];
        assert(crate::graph::is_path_avoiding(edges, p, Set::empty()));
        assert(reachable(edges, roots[k], roots[k]));
    }
}

/// The order holds every dependency of each of its nodes: it is closed under the edges.
pub proof fn lemma_dependency_order_closed(edges: Seq<(usize, usize)>, roots: Seq<usize>, order: Seq<usize>)
    requires
        dependency_order(edges, roots, order),
    ensures
        forall|i: int, v: usize| 0 <= i < order.len() && #[trigger] is_edge(edges, order[i], v) ==> order.contains(v),
{
    assert forall|i: int, v: usize| 0 <= i < order.len() && #[trigger] is_edge(edges, order[i], v) implies order.contains(v) by {
        assert(order.contains(order[i]));
        let k = choose|k: int| 0 <= k < roots.len() && #[trigger] reachable(edges, roots[k], order[i]);
        lemma_path_extend(edges, Set::empty(), roots[k], order[i], v);
        assert(reachable(edges, roots[k], v));
        assert(exists|k: int| 0 <= k < roots.len() && #[trigger] reachable(edges, roots[k], v));
    }
}

/// A graph of nodes, with an edge from each node to each of its dependencies.
pub struct DependencyGraph<T> {
    nodes: Vec<T>,
    graph: Graph<usize, ()>,
}

impl<T> DependencyGraph<T> {
    #[verifier::type_invariant]
    spec fn well_formed(&self) -> bool {
        &&& graph_nodes(self.graph).len() == self.nodes@.len()
        &&& self.nodes@.len() < u32::MAX
        &&& edges_within(graph_edges(self.graph), self.nodes@.len())
    }

    /// The nodes, in the order they were given.
    pub closed spec fn nodes_view(&self) -> Seq<T> {
        self.nodes@
    }

    /// The edges, as (node, dependency) index pairs.
    pub closed spec fn edges(&self) -> Seq<(usize, usize)> {
        graph_edges(self.graph)
    }

    /// The nodes of the graph.
    pub fn nodes(&self) -> (r: &Vec<T>)
        ensures
            r@ == self.nodes_view(),
    {
        &self.nodes
    }

    /// The node indices in the order of a post-order walk from each root in turn, each node
    /// once: the roots and everything they depend on.
    pub fn walk(&self, roots: &Vec<usize>) -> (order: Vec<usize>)
        requires
            forall|k: int| 0 <= k < roots@.len() ==> #[trigger] roots@[k] < self.nodes_view().len(),
        ensures
            dependency_order(self.edges(), roots@, order@),
            forall|x: int| 0 <= x < order@.len() ==> #[trigger] order@[x] < self.nodes_view().len(),
    {
        proof {
            use_type_invariant(self);
        }
        let ghost edges = graph_edges(self.graph);
        let mut dfs = dfs_empty(&self.graph);
        let mut order: Vec<usize> = Vec::new();
        let mut r: usize = 0;
        while r < roots.len()
            invariant
                0 <= r <= roots@.len(),
                edges == graph_edges(self.graph),
                edges == self.edges(),
                edges_within(edges, graph_nodes(self.graph).len()),
                graph_nodes(self.graph).len() == self.nodes_view().len(),
                forall|k: int| 0 <= k < roots@.len() ==> #[trigger] roots@[k] < self.nodes_view().len(),
                dfs_capacity(dfs) == graph_nodes(self.graph).len(),
                dfs_discovered(dfs) == dfs_finished(dfs),
                dfs_finished(dfs) == order@.to_set(),
                closed_under(edges, order@.to_set()),
                order@.no_duplicates(),
                forall|x: int| 0 <= x < order@.len() ==> #[trigger] order@[x] < self.nodes_view().len(),
                forall|v: usize|
                    order@.contains(v) <==> exists|k: int|
                        0 <= k < r && #[trigger] reachable(edges, roots@[k], v),
                forall|i: int, v: usize|
                    acyclic(edges) && 0 <= i < order@.len() && #[trigger] is_edge(edges, order@[i], v)
                        ==> exists|j: int| 0 <= j < i && order@[j] == v,
            decreases roots@.len() - r,
        {
            let ghost before = order@;
            let ghost done = order@.to_set();
            let start = roots[r];
            let walk = dfs_walk_from(&mut dfs, &self.graph, start);
            let ghost w = walk@;
            let mut i: usize = 0;
            while i < walk.len()
                invariant
                    0 <= i <= w.len(),
                    w == walk@,
                    order@ == before + w.subrange(0, i as int),
            decreases w.len() - i,
            {
                order.push(walk[i]);
                i += 1;
            }
            proof {
                assert(w.subrange(0, w.len() as int) == w);
                assert(order@ == before + w);
                assert forall|x: int| 0 <= x < order@.len() implies #[trigger] order@[x] < self.nodes_view().len() by {
                    if x >= before.len() {
                        assert(w[x - before.len()] == order@[x]);
                        assert(w.contains(order@[x]));
                        crate::graph::lemma_reachable_within(edges, graph_nodes(self.graph).len(), done, start, order@[x]);
                    }
                }
                // The walk adds no node twice and none that was there.
                assert forall|a: int, b: int| 0 <= a < b < order@.len() implies order@[a] != order@[b] by {
                    if b >= before.len() && a < before.len() {
                        assert(w.contains(order@[b]));
                        let x = order@[b];
                        assert(reachable_avoiding(edges, done, start, x));
                        let p = choose|p: Seq<usize>| #[trigger] crate::graph::is_path_avoiding(edges, p, done) && p[0] == start && p[p.len() - 1] == x;
                        assert(!done.contains(p[p.len() - 1]));
                        assert(before.contains(order@[a]));
                    } else if a >= before.len() {
                        assert(w[a - before.len()] == order@[a]);
                        assert(w[b - before.len()] == order@[b]);
                    }
                }
                assert(order@.to_set() == done.union(w.to_set())) by {
                    assert forall|x: usize| order@.to_set().contains(x) <==> done.union(w.to_set()).contains(x) by {
                        if order@.contains(x) {
                            let k = choose|k: int| 0 <= k < order@.len() && order@[k] == x;
                            if k >= before.len() {
                                assert(w[k - before.len()] == x);
                            }
                        }
                        if w.contains(x) {
                            let k = choose|k: int| 0 <= k < w.len() && w[k] == x;
                            assert(order@[before.len() + k] == x);
                        }
                        if before.contains(x) {
                            let k = choose|k: int| 0 <= k < before.len() && before[k] == x;
                            assert(order@[k] == x);
                        }
                    }
                }
                let now = order@.to_set();
                // The finished set stays closed under the edges.
                assert forall|k: int| 0 <= k < edges.len() && now.contains(#[trigger] edges[k].0) implies now.contains(edges[k].1) by {
                    let (a, b) = edges[k];
                    assert(is_edge(edges, a, b));
                    if !done.contains(a) {
                        assert(w.contains(a));
                        if !done.contains(b) {
                            lemma_path_extend(edges, done, start, a, b);
                            assert(w.contains(b));
                        }
                    }
                }
                // The nodes gathered are those reachable from the roots so far.
                assert forall|v: usize|
                    order@.contains(v) <==> exists|k: int|
                        0 <= k < r + 1 && #[trigger] reachable(edges, roots@[k], v) by {
                    if order@.contains(v) {
                        if before.contains(v) {
                            let k = choose|k: int| 0 <= k < r && #[trigger] reachable(edges, roots@[k], v);
                            assert(0 <= k < r + 1 && reachable(edges, roots@[k], v));
                        } else {
                            assert(now.contains(v));
                            assert(w.contains(v));
                            lemma_avoiding_subset(edges, Set::empty(), done, start, v);
                            assert(reachable(edges, roots@[r as int], v));
                        }
                    }
                    if exists|k: int| 0 <= k < r + 1 && #[trigger] reachable(edges, roots@[k], v) {
                        let k = choose|k: int| 0 <= k < r + 1 && #[trigger] reachable(edges, roots@[k], v);
                        if k < r {
                            assert(before.contains(v));
                            assert(now.contains(v));
                        } else {
                            lemma_reachable_split(edges, done, start, v);
                            if !done.contains(v) {
                                assert(w.contains(v));
                            }
                            assert(now.contains(v));
                        }
                    }
                }
                // Each node still comes after the nodes it has an edge to.
                assert forall|i: int, v: usize|
                    acyclic(edges) && 0 <= i < order@.len() && #[trigger] is_edge(edges, order@[i], v)
                        implies exists|j: int| 0 <= j < i && order@[j] == v by {
                    if i < before.len() {
                        assert(order@[i] == before[i]);
                        let j = choose|j: int| 0 <= j < i && before[j] == v;
                        assert(order@[j] == v);
                    } else {
                        let wi = i - before.len();
                        assert(w[wi] == order@[i]);
                        assert(is_edge(edges, w[wi], v));
                        if done.contains(v) {
                            let j = choose|j: int| 0 <= j < before.len() && before[j] == v;
                            assert(order@[j] == v);
                        } else {
                            let j = choose|j: int| 0 <= j < wi && w[j] == v;
                            assert(order@[before.len() + j] == v);
                        }
                    }
                }
            }
            r += 1;
        }
        order
    }
}

/// The error of [`create_dependency_graph`].
#[derive(Debug)]
pub enum CreateDependencyGraphError<E> {
    /// A node could not give its dependencies.
    GetNodeDependenciesError(E),
    /// A node depends on an ID that no node has.
    MissingDependency(BuildpackId),
}

/// The error of [`get_dependencies`].
#[derive(Debug)]
pub enum GetDependenciesError {
    /// A root node is not in the graph.
    UnknownRootNode(BuildpackId),
}

/// The first position in `ids` of an ID equal to `id`.
pub fn position_of_id(ids: &Vec<BuildpackId>, id: &BuildpackId) -> (r: Option<usize>)
    ensures
        match r {
            Some(i) => id_views(ids@).index_of_first(id@) == Some(i as int),
            None => id_views(ids@).index_of_first(id@) is None,
        },
{
    let ghost s = id_views(ids@);
    proof {
        s.index_of_first_ensures(id@);
    }
    let mut i: usize = 0;
    while i < ids.len()
        invariant
            0 <= i <= ids@.len(),
            s == id_views(ids@),
            forall|j: int| 0 <= j < i ==> s[j] != id@,
        decreases ids@.len() - i,
    {
        if ids[i].same_as(id) {
            proof {
                assert(s[i as int] == id@);
                s.index_of_first_ensures(id@);
                match s.index_of_first(id@) {
                    Some(f) => {
                        if f < i {
                            assert(s[f] != id@);
                        } else if f > i {
                            assert(0 <= i < f < s.len());
                            assert(s[i as int] != id@);
                        }
                    },
                    None => {
                        assert(s.contains(id@));
                    },
                }
            }
            return Some(i);
        }
        i += 1;
    }
    proof {
        if s.contains(id@) {
            let j = choose|j: int| 0 <= j < s.len() && s[j] == id@;
            assert(s[j] != id@);
        }
    }
    None
}

} // verus!

verus! {

/// Creates a graph of the given nodes, with an edge from each node to the first node with
/// each ID it depends on.
///
/// Fails at the first node, in the given order, whose dependencies cannot be gathered or
/// name an ID that no node has.
pub fn create_dependency_graph<T: DependencyNode<E>, E>(nodes: Vec<T>) -> (r: Result<
    DependencyGraph<T>,
    CreateDependencyGraphError<E>,
>)
    requires
        nodes@.len() < u32::MAX,
        dependency_total(nodes@, nodes@.len()) < u32::MAX,
    ensures
        r is Ok <==> nodes_resolved(nodes@, nodes@.len() as int),
        r matches Ok(g) ==> g.nodes_view() == nodes@ && g.edges() == edges_upto(nodes@, nodes@.len()),
        r matches Err(CreateDependencyGraphError::GetNodeDependenciesError(e)) ==> exists|i: int|
            0 <= i < nodes@.len() && nodes_resolved(nodes@, i) && #[trigger] nodes@[i].node_dependencies() is None
                && nodes@[i].is_dependencies_error(e),
        r matches Err(CreateDependencyGraphError::MissingDependency(d)) ==> exists|i: int, k: int|
            0 <= i < nodes@.len() && nodes_resolved(nodes@, i) && #[trigger] nodes@[i].node_dependencies() is Some
                && 0 <= k < nodes@[i].node_dependencies()->0.len() && resolvable(
                node_ids(nodes@),
                nodes@[i].node_dependencies()->0.take(k),
            ) && #[trigger] nodes@[i].node_dependencies()->0[k] == d@ && !node_ids(nodes@).contains(d@),
{
    let n = nodes.len();
    let ghost ns = nodes@;
    let ghost ids_spec = node_ids(ns);
    let mut ids: Vec<BuildpackId> = Vec::new();
    let mut graph = graph_new();
    let mut i: usize = 0;
    while i < n
        invariant
            0 <= i <= n,
            n == ns.len(),
            ns == nodes@,
            n < u32::MAX,
            ids@.len() == i,
            forall|j: int| 0 <= j < i ==> (#[trigger] ids@[j])@ == ns[j].node_id(),
            graph_nodes(graph).len() == i,
            graph_edges(graph) == Seq::<(usize, usize)>::empty(),
        decreases n - i,
    {
        ids.push(nodes[i].id());
        graph_add_node(&mut graph, i);
        i += 1;
    }
    assert(id_views(ids@) =~= ids_spec);
    proof {
        lemma_dependency_total_mono(ns, 0, n as nat);
    }
    let mut i: usize = 0;
    while i < n
        invariant
            0 <= i <= n,
            n == ns.len(),
            ns == nodes@,
            n < u32::MAX,
            ids_spec == node_ids(ns),
            id_views(ids@) == ids_spec,
            dependency_total(ns, n as nat) < u32::MAX,
            graph_nodes(graph).len() == n,
            nodes_resolved(ns, i as int),
            graph_edges(graph) == edges_upto(ns, i as nat),
            edges_within(graph_edges(graph), n as nat),
        decreases n - i,
    {
        let deps = match nodes[i].dependencies() {
            Ok(d) => d,
            Err(e) => {
                return Err(CreateDependencyGraphError::GetNodeDependenciesError(e));
            },
        };
        let ghost dv = id_views(deps@);
        proof {
            lemma_edges_upto_len(ns, i as nat);
            lemma_dependency_total_mono(ns, (i + 1) as nat, n as nat);
            assert(dependency_total(ns, (i + 1) as nat) == dependency_total(ns, i as nat) + dv.len());
        }
        let mut k: usize = 0;
        while k < deps.len()
            invariant
                0 <= k <= deps@.len(),
                0 <= i < n,
                n == ns.len(),
                ns == nodes@,
                ids_spec == node_ids(ns),
                id_views(ids@) == ids_spec,
                dv == id_views(deps@),
                ns[i as int].node_dependencies() == Some(dv),
                edges_upto(ns, i as nat).len() + dv.len() < u32::MAX,
                graph_nodes(graph).len() == n,
                resolvable(ids_spec, dv.take(k as int)),
                nodes_resolved(ns, i as int),
                graph_edges(graph) == edges_upto(ns, i as nat) + dependency_edges(
                    ids_spec,
                    i,
                    dv.take(k as int),
                ),
                edges_within(graph_edges(graph), n as nat),
            decreases deps@.len() - k,
        {
            match position_of_id(&ids, &deps[k]) {
                Some(j) => {
                    proof {
                        ids_spec.index_of_first_ensures(dv[k as int]);
                        assert(dv[k as int] == deps@[k as int]@);
                    }
                    graph_add_edge(&mut graph, i, j);
                    proof {
                        assert(dependency_edges(ids_spec, i, dv.take(k + 1)) =~= dependency_edges(
                            ids_spec,
                            i,
                            dv.take(k as int),
                        ).push((i, j)));
                        assert forall|m: int| 0 <= m < k + 1 implies ids_spec.contains(
                            #[trigger] dv.take(k + 1)[m],
                        ) by {
                            if m < k {
                                assert(dv.take(k + 1)[m] == dv.take(k as int)[m]);
                            }
                        }
                    }
                },
                None => {
                    proof {
                        ids_spec.index_of_first_ensures(deps@[k as int]@);
                        assert(dv[k as int] == deps@[k as int]@);
                        assert(ns[i as int].node_dependencies() is Some);
                        assert(ns[i as int].node_dependencies()->0 == dv);
                        assert(dv.take(k as int) == ns[i as int].node_dependencies()->0.take(k as int));
                        assert(ns[i as int].node_dependencies()->0[k as int] == deps@[k as int]@);
                    }
                    return Err(CreateDependencyGraphError::MissingDependency(deps[k].clone()));
                },
            }
            k += 1;
        }
        proof {
            assert(dv.take(dv.len() as int) =~= dv);
            assert forall|j: int| 0 <= j < i + 1 implies #[trigger] ns[j].node_dependencies() is Some
                && resolvable(node_ids(ns), ns[j].node_dependencies()->0) by {
                if j < i {
                    assert(nodes_resolved(ns, i as int));
                }
            }
        }
        i += 1;
    }
    Ok(DependencyGraph { nodes, graph })
}

/// The positions of the nodes with the IDs of the given roots.
pub open spec fn root_positions<T: DependencyNode<E>, E>(ids: Seq<Seq<char>>, roots: Seq<&T>) -> Seq<usize> {
    roots.map_values(|n: &T| position_of(ids, n.node_id()))
}

/// The error of resolving the root nodes of [`get_dependencies`], if any: the ID of the
/// first root that no node of the graph has.
pub open spec fn first_unknown_root<T: DependencyNode<E>, E>(ids: Seq<Seq<char>>, roots: Seq<&T>) -> Option<Seq<char>>
    decreases roots.len(),
{
    if roots.len() == 0 {
        None
    } else {
        match first_unknown_root::<T, E>(ids, roots.drop_last()) {
            Some(id) => Some(id),
            None => if ids.contains(roots.last().node_id()) {
                None
            } else {
                Some(roots.last().node_id())
            },
        }
    }
}

/// Collects the given root nodes and all the nodes they depend on, directly or not, each
/// once, walking from each root in turn. Where the graph has no cycle, every node comes
/// after all its dependencies.
///
/// Fails if a root node's ID is not in the graph.
pub fn get_dependencies<'a, T: DependencyNode<E>, E>(
    graph: &'a DependencyGraph<T>,
    root_nodes: &[&T],
) -> (r: Result<Vec<&'a T>, GetDependenciesError>)
    ensures
        match first_unknown_root::<T, E>(node_ids(graph.nodes_view()), root_nodes@) {
            Some(id) => r matches Err(GetDependenciesError::UnknownRootNode(e)) && e@ == id,
            None => r is Ok,
        },
        r matches Ok(v) ==> exists|order: Seq<usize>|
            #[trigger] dependency_order(
                graph.edges(),
                root_positions::<T, E>(node_ids(graph.nodes_view()), root_nodes@),
                order,
            ) && order.len() == v@.len() && forall|k: int|
                0 <= k < order.len() ==> order[k] < graph.nodes_view().len() && *v@[k]
                    == graph.nodes_view()[#[trigger] order[k] as int],
{
    let nodes = graph.nodes();
    let n = nodes.len();
    let ghost ids_spec = node_ids(graph.nodes_view());
    let mut ids: Vec<BuildpackId> = Vec::new();
    let mut i: usize = 0;
    while i < n
        invariant
            0 <= i <= n,
            n == nodes@.len(),
            nodes@ == graph.nodes_view(),
            ids@.len() == i,
            forall|j: int| 0 <= j < i ==> (#[trigger] ids@[j])@ == nodes@[j].node_id(),
        decreases n - i,
    {
        ids.push(nodes[i].id());
        i += 1;
    }
    assert(id_views(ids@) =~= ids_spec);
    let ghost root_spec = root_positions::<T, E>(ids_spec, root_nodes@);
    let mut roots: Vec<usize> = Vec::new();
    let mut k: usize = 0;
    while k < root_nodes.len()
        invariant
            0 <= k <= root_nodes@.len(),
            n == nodes@.len(),
            nodes@ == graph.nodes_view(),
            id_views(ids@) == ids_spec,
            ids_spec == node_ids(graph.nodes_view()),
            ids_spec.len() == n,
            root_spec == root_positions::<T, E>(ids_spec, root_nodes@),
            first_unknown_root::<T, E>(ids_spec, root_nodes@.take(k as int)) is None,
            roots@ == root_spec.take(k as int),
            forall|m: int| 0 <= m < k ==> #[trigger] roots@[m] < n,
        decreases root_nodes@.len() - k,
    {
        let root_id = root_nodes[k].id();
        proof {
            ids_spec.index_of_first_ensures(root_id@);
            assert(root_nodes@.take(k + 1).drop_last() =~= root_nodes@.take(k as int));
        }
        match position_of_id(&ids, &root_id) {
            Some(j) => {
                roots.push(j);
                proof {
                    assert(roots@ =~= root_spec.take(k + 1));
                }
            },
            None => {
                proof {
                    lemma_first_unknown_root_prefix::<T, E>(ids_spec, root_nodes@, (k + 1) as nat);
                }
                return Err(GetDependenciesError::UnknownRootNode(root_id));
            },
        }
        k += 1;
    }
    proof {
        assert(root_nodes@.take(root_nodes@.len() as int) =~= root_nodes@);
        assert(roots@ =~= root_spec);
        lemma_first_unknown_root_prefix::<T, E>(ids_spec, root_nodes@, root_nodes@.len());
    }
    let order = graph.walk(&roots);
    let mut result: Vec<&'a T> = Vec::new();
    let mut m: usize = 0;
    while m < order.len()
        invariant
            0 <= m <= order@.len(),
            nodes@ == graph.nodes_view(),
            n == nodes@.len(),
            dependency_order(graph.edges(), roots@, order@),
            forall|x: int| 0 <= x < order@.len() ==> #[trigger] order@[x] < n,
            result@.len() == m,
            forall|x: int| 0 <= x < m ==> *result@[x] == nodes@[#[trigger] order@[x] as int],
        decreases order@.len() - m,
    {
        result.push(&nodes[order[m]]);
        m += 1;
    }
    proof {
        assert(dependency_order(graph.edges(), root_spec, order@));
    }
    Ok(result)
}

proof fn lemma_first_unknown_root_prefix<T: DependencyNode<E>, E>(ids: Seq<Seq<char>>, roots: Seq<&T>, k: nat)
    requires
        k <= roots.len(),
    ensures
        first_unknown_root::<T, E>(ids, roots.take(k as int)) is Some ==> first_unknown_root::<T, E>(ids, roots)
            == first_unknown_root::<T, E>(ids, roots.take(k as int)),
    decreases roots.len() - k,
{
    if k < roots.len() {
        lemma_first_unknown_root_prefix::<T, E>(ids, roots, k + 1);
        assert(roots.take((k + 1) as int).drop_last() =~= roots.take(k as int));
    } else {
        assert(roots.take(k as int) =~= roots);
    }
}

} // verus!
