//! The dependency graph of the libcnb.rs and composite buildpacks of a workspace.
use crate::buildpack_dependency::{
    dependency_parts, first_invalid_local_id, get_local_package_descriptor_dependencies, local_ids,
};
use crate::buildpack_id::{BuildpackId, BuildpackIdError};
use crate::dependency_graph::{id_views, DependencyNode};
use crate::package_descriptor::PackageDescriptor;
use std::convert::Infallible;
use vstd::prelude::*;

verus! {

/// A buildpack of the workspace: its ID, its directory and the IDs of the local buildpacks
/// it depends on.
#[derive(Debug)]
pub struct BuildpackDependencyGraphNode {
    pub buildpack_id: BuildpackId,
    pub path: String,
    pub dependencies: Vec<BuildpackId>,
}

/// A copy of a list of buildpack IDs.
pub fn clone_ids(ids: &Vec<BuildpackId>) -> (r: Vec<BuildpackId>)
    ensures
        id_views(r@) == id_views(ids@),
{
    let mut r: Vec<BuildpackId> = Vec::new();
    let mut i: usize = 0;
    while i < ids.len()
        invariant
            0 <= i <= ids@.len(),
            r@.len() == i,
            forall|j: int| 0 <= j < i ==> (#[trigger] r@[j])@ == ids@[j]@,
        decreases ids@.len() - i,
    {
        r.push(ids[i].clone());
        i += 1;
    }
    assert(id_views(r@) =~= id_views(ids@));
    r
}

impl DependencyNode<Infallible> for BuildpackDependencyGraphNode {
    open spec fn node_id(&self) -> Seq<char> {
        self.buildpack_id@
    }

    open spec fn node_dependencies(&self) -> Option<Seq<Seq<char>>> {
        Some(id_views(self.dependencies@))
    }

    open spec fn is_dependencies_error(&self, e: Infallible) -> bool {
        false
    }

    fn id(&self) -> (r: BuildpackId) {
        self.buildpack_id.clone()
    }

    fn dependencies(&self) -> (r: Result<Vec<BuildpackId>, Infallible>) {
        Ok(clone_ids(&self.dependencies))
    }
}

/// The IDs of the local buildpacks that a package descriptor depends on.
pub fn get_buildpack_dependencies(package_descriptor: &PackageDescriptor) -> (r: Result<
    Vec<BuildpackId>,
    BuildpackIdError,
>)
    ensures
        match first_invalid_local_id(dependency_parts(package_descriptor.dependencies@)) {
            Some(v) => r matches Err(BuildpackIdError::InvalidValue(x)) && x@ == v,
            None => r matches Ok(ids) && id_views(ids@) == local_ids(
                dependency_parts(package_descriptor.dependencies@),
            ),
        },
{
    let r = get_local_package_descriptor_dependencies(package_descriptor);
    assert(r matches Ok(ids) ==> id_views(ids@) == ids@.map_values(|id: BuildpackId| id@));
    r
}

/// The graph node of a buildpack with the given ID and directory, which depends on the
/// local buildpacks that its package descriptor (if it has one) names.
///
/// Fails where the package descriptor names a local buildpack by an invalid ID.
pub fn build_libcnb_buildpack_dependency_graph_node(
    buildpack_id: BuildpackId,
    path: &str,
    package_descriptor: Option<&PackageDescriptor>,
) -> (r: Result<BuildpackDependencyGraphNode, BuildpackIdError>)
    ensures
        match package_descriptor {
            None => r matches Ok(n) && n.buildpack_id@ == buildpack_id@ && n.path@ == path@
                && n.dependencies@.len() == 0,
            Some(d) => match first_invalid_local_id(dependency_parts(d.dependencies@)) {
                Some(v) => r matches Err(BuildpackIdError::InvalidValue(x)) && x@ == v,
                None => r matches Ok(n) && n.buildpack_id@ == buildpack_id@ && n.path@ == path@
                    && id_views(n.dependencies@) == local_ids(dependency_parts(d.dependencies@)),
            },
        },
{
    let dependencies = match package_descriptor {
        None => Vec::new(),
        Some(d) => match get_buildpack_dependencies(d) {
            Ok(ids) => ids,
            Err(e) => {
                return Err(e);
            },
        },
    };
    Ok(BuildpackDependencyGraphNode { buildpack_id, path: path.to_owned(), dependencies })
}

} // verus!
