//! A directory that can be packaged into a buildpack, with the graph of such directories.
use crate::buildpack_dependency::{
    dependency_parts, first_invalid_local_id, get_local_package_descriptor_dependencies, local_ids,
};
use crate::buildpack_id::{BuildpackId, BuildpackIdError};
use crate::dependency_graph::{
    create_dependency_graph, dependency_total, edges_upto, get_dependencies, id_views,
    nodes_resolved, CreateDependencyGraphError, DependencyGraph, DependencyNode,
    GetDependenciesError,
};
use crate::package_descriptor::PackageDescriptor;
use crate::text::push_str;
use vstd::prelude::*;

verus! {

/// A directory that can be packaged into a buildpack: the ID from its buildpack descriptor
/// and its package descriptor, if it has one.
#[derive(Debug)]
pub struct BuildpackPackage {
    pub path: String,
    pub buildpack_id: BuildpackId,
    pub package_descriptor: Option<PackageDescriptor>,
}

impl BuildpackPackage {
    /// The ID of the buildpack.
    pub fn buildpack_id(&self) -> (r: &BuildpackId)
        ensures
            r@ == self.buildpack_id@,
    {
        &self.buildpack_id
    }
}

impl DependencyNode<BuildpackIdError> for BuildpackPackage {
    open spec fn node_id(&self) -> Seq<char> {
        self.buildpack_id@
    }

    open spec fn node_dependencies(&self) -> Option<Seq<Seq<char>>> {
        match self.package_descriptor {
            None => Some(Seq::empty()),
            Some(d) => if first_invalid_local_id(dependency_parts(d.dependencies@)) is None {
                Some(local_ids(dependency_parts(d.dependencies@)))
            } else {
                None
            },
        }
    }

    open spec fn is_dependencies_error(&self, e: BuildpackIdError) -> bool {
        match self.package_descriptor {
            None => false,
            Some(d) => e matches BuildpackIdError::InvalidValue(x) && first_invalid_local_id(
                dependency_parts(d.dependencies@),
            ) == Some(x@),
        }
    }

    fn id(&self) -> (r: BuildpackId) {
        self.buildpack_id.clone()
    }

    fn dependencies(&self) -> (r: Result<Vec<BuildpackId>, BuildpackIdError>) {
        match &self.package_descriptor {
            None => Ok(Vec::new()),
            Some(d) => {
                let r = get_local_package_descriptor_dependencies(d);
                assert(r matches Ok(ids) ==> id_views(ids@) == ids@.map_values(|id: BuildpackId| id@));
                r
            },
        }
    }
}

/// The error of reading a buildpack package from its directory: which descriptor could not
/// be read, with the message of what went wrong.
#[derive(Debug, Clone, PartialEq, Eq)]
pub enum ReadBuildpackPackageError {
    ReadBuildpackDataError(String),
    ReadPackageDescriptorError(String),
}

impl ReadBuildpackPackageError {
    /// The message of this error: `Failed to read package descriptor data: <cause>`.
    pub fn to_string(&self) -> (r: String)
        ensures
            r@ == "Failed to read package descriptor data: "@ + match self {
                ReadBuildpackPackageError::ReadBuildpackDataError(m) => m@,
                ReadBuildpackPackageError::ReadPackageDescriptorError(m) => m@,
            },
    {
        let mut s = String::new();
        push_str(&mut s, "Failed to read package descriptor data: ");
        match self {
            ReadBuildpackPackageError::ReadBuildpackDataError(m) => push_str(&mut s, m.as_str()),
            ReadBuildpackPackageError::ReadPackageDescriptorError(m) => push_str(&mut s, m.as_str()),
        }
        s
    }
}

/// A node of a [`BuildpackPackageGraph`].
pub trait TopoSort<E>: DependencyNode<E> {

}

impl TopoSort<BuildpackIdError> for BuildpackPackage {

}

/// A dependency graph of buildpack packages.
pub struct BuildpackPackageGraph<T> {
    pub graph: DependencyGraph<T>,
}

impl<T> BuildpackPackageGraph<T> {
    /// The packages of the graph, in the order they were given.
    pub fn packages(&self) -> (r: Vec<&T>)
        ensures
            r@.len() == self.graph.nodes_view().len(),
            forall|k: int| 0 <= k < r@.len() ==> *r@[k] == self.graph.nodes_view()[k],
    {
        let nodes = self.graph.nodes();
        let mut r: Vec<&T> = Vec::new();
        let mut k: usize = 0;
        while k < nodes.len()
            invariant
                0 <= k <= nodes@.len(),
                nodes@ == self.graph.nodes_view(),
                r@.len() == k,
                forall|j: int| 0 <= j < k ==> *r@[j] == nodes@[j],
            decreases nodes@.len() - k,
        {
            r.push(&nodes[k]);
            k += 1;
        }
        r
    }
}

/// The error of [`create_buildpack_package_graph`].
#[derive(Debug)]
pub enum CreateBuildpackPackageGraphError<E> {
    BuildpackIdError(E),
    BuildpackageLookup(BuildpackId),
}

/// The error of [`get_buildpack_package_dependencies`].
#[derive(Debug)]
pub enum GetBuildpackPackageDependenciesError {
    BuildpackPackageLookup(BuildpackId),
}

/// Creates the dependency graph of the given packages, as [`create_dependency_graph`] does.
pub fn create_buildpack_package_graph<T: TopoSort<E>, E>(buildpack_packages: Vec<T>) -> (r: Result<
    BuildpackPackageGraph<T>,
    CreateBuildpackPackageGraphError<E>,
>)
    requires
        buildpack_packages@.len() < u32::MAX,
        dependency_total(buildpack_packages@, buildpack_packages@.len()) < u32::MAX,
    ensures
        r is Ok <==> nodes_resolved(buildpack_packages@, buildpack_packages@.len() as int),
        r matches Ok(g) ==> g.graph.nodes_view() == buildpack_packages@ && g.graph.edges() == edges_upto(
            buildpack_packages@,
            buildpack_packages@.len(),
        ),
        r matches Err(CreateBuildpackPackageGraphError::BuildpackIdError(e)) ==> exists|i: int|
            0 <= i < buildpack_packages@.len() && nodes_resolved(buildpack_packages@, i)
                && #[trigger] buildpack_packages@[i].node_dependencies() is None
                && buildpack_packages@[i].is_dependencies_error(e),
        r matches Err(CreateBuildpackPackageGraphError::BuildpackageLookup(d)) ==> exists|i: int, k: int|
            0 <= i < buildpack_packages@.len() && nodes_resolved(buildpack_packages@, i)
                && #[trigger] buildpack_packages@[i].node_dependencies() is Some
                && 0 <= k < buildpack_packages@[i].node_dependencies()->0.len() && resolvable_prefix::<T, E>(
                buildpack_packages@,
                i,
                k,
            ) && #[trigger] buildpack_packages@[i].node_dependencies()->0[k] == d@
                && !crate::dependency_graph::node_ids(buildpack_packages@).contains(d@),
{
    match create_dependency_graph(buildpack_packages) {
        Ok(graph) => Ok(BuildpackPackageGraph { graph }),
        Err(CreateDependencyGraphError::GetNodeDependenciesError(e)) => Err(
            CreateBuildpackPackageGraphError::BuildpackIdError(e),
        ),
        Err(CreateDependencyGraphError::MissingDependency(d)) => Err(
            CreateBuildpackPackageGraphError::BuildpackageLookup(d),
        ),
    }
}

/// The first `k` dependencies of node `i` name nodes of the graph.
pub open spec fn resolvable_prefix<T: DependencyNode<E>, E>(nodes: Seq<T>, i: int, k: int) -> bool {
    crate::dependency_graph::resolvable(
        crate::dependency_graph::node_ids(nodes),
        nodes[i].node_dependencies()->0.take(k),
    )
}

/// The given root packages and all the packages they depend on, as [`get_dependencies`]
/// collects them.
pub fn get_buildpack_package_dependencies<'a, T: TopoSort<E>, E>(
    buildpack_packages: &'a BuildpackPackageGraph<T>,
    root_packages: &[&T],
) -> (r: Result<Vec<&'a T>, GetBuildpackPackageDependenciesError>)
    ensures
        match crate::dependency_graph::first_unknown_root::<T, E>(
            crate::dependency_graph::node_ids(buildpack_packages.graph.nodes_view()),
            root_packages@,
        ) {
            Some(id) => r matches Err(GetBuildpackPackageDependenciesError::BuildpackPackageLookup(e)) && e@ == id,
            None => r is Ok,
        },
        r matches Ok(v) ==> exists|order: Seq<usize>|
            #[trigger] crate::dependency_graph::dependency_order(
                buildpack_packages.graph.edges(),
                crate::dependency_graph::root_positions::<T, E>(
                    crate::dependency_graph::node_ids(buildpack_packages.graph.nodes_view()),
                    root_packages@,
                ),
                order,
            ) && order.len() == v@.len() && forall|k: int|
                0 <= k < order.len() ==> order[k] < buildpack_packages.graph.nodes_view().len() && *v@[k]
                    == buildpack_packages.graph.nodes_view()[#[trigger] order[k] as int],
{
    match get_dependencies(&buildpack_packages.graph, root_packages) {
        Ok(v) => Ok(v),
        Err(GetDependenciesError::UnknownRootNode(id)) => Err(
            GetBuildpackPackageDependenciesError::BuildpackPackageLookup(id),
        ),
    }
}

} // verus!
