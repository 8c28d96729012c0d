//! The dependencies of a package descriptor, told apart into local libcnb.rs buildpacks
//! (`libcnb:<buildpack id>`) and everything else, and rewritten for packaging.
use crate::buildpack_id::{valid_buildpack_id, BuildpackId, BuildpackIdError};
use crate::output::{packaged_buildpack_dir, PackagedBuildpackDirResolver};
use crate::package_descriptor::{PackageDescriptor, PackageDescriptorDependency};
use crate::path::{join, join_path};
use crate::text::str_eq;
use crate::uri::uri_reference_parts;
use vstd::prelude::*;

verus! {

/// The parts of a URI reference: scheme, path, relative-path flag, text.
pub type UriParts = (Option<Seq<char>>, Seq<char>, bool, Seq<char>);

/// The URI parts of each dependency.
pub open spec fn dependency_parts(deps: Seq<PackageDescriptorDependency>) -> Seq<UriParts> {
    deps.map_values(|d: PackageDescriptorDependency| d.uri.parts())
}

/// The dependency is a local libcnb.rs buildpack: its scheme is `libcnb`.
pub open spec fn is_libcnb(p: UriParts) -> bool {
    p.0 == Some("libcnb"@)
}

/// The dependency is not a local buildpack, or names one by a valid ID (its path).
pub open spec fn local_id_valid(p: UriParts) -> bool {
    is_libcnb(p) ==> valid_buildpack_id(p.1)
}

/// Every dependency before position `k` satisfies [`local_id_valid`].
pub open spec fn local_ids_valid_upto(ps: Seq<UriParts>, k: int) -> bool {
    forall|j: int| 0 <= j < k ==> local_id_valid(#[trigger] ps[j])
}

/// The first dependency, if any, that names a local buildpack by an invalid ID: its path.
pub open spec fn first_invalid_local_id(ps: Seq<UriParts>) -> Option<Seq<char>> {
    if local_ids_valid_upto(ps, ps.len() as int) {
        None
    } else {
        let k = choose|k: int|
            0 <= k < ps.len() && local_ids_valid_upto(ps, k) && !local_id_valid(#[trigger] ps[k]);
        Some(ps[k].1)
    }
}

/// The IDs of the local buildpacks among the dependencies, in order.
pub open spec fn local_ids(ps: Seq<UriParts>) -> Seq<Seq<char>>
    decreases ps.len(),
{
    if ps.len() == 0 {
        Seq::empty()
    } else if is_libcnb(ps.last()) {
        local_ids(ps.drop_last()).push(ps.last().1)
    } else {
        local_ids(ps.drop_last())
    }
}

/// There is a first position where `ps` fails [`local_id_valid`], and it is `k`.
proof fn lemma_first_invalid_unique(ps: Seq<UriParts>, k: int)
    requires
        0 <= k < ps.len(),
        local_ids_valid_upto(ps, k),
        !local_id_valid(ps[k]),
    ensures
        first_invalid_local_id(ps) == Some(ps[k].1),
{
    assert(!local_ids_valid_upto(ps, ps.len() as int));
    let c = choose|c: int|
        0 <= c < ps.len() && local_ids_valid_upto(ps, c) && !local_id_valid(#[trigger] ps[c]);
    if c < k {
        assert(local_id_valid(ps[c]));
    } else if c > k {
        assert(local_id_valid(ps[k]));
    }
}

/// A dependency of a package descriptor.
#[derive(Debug, Clone)]
pub enum BuildpackDependency {
    /// A dependency that is not a local libcnb.rs buildpack.
    External(PackageDescriptorDependency),
    /// A local libcnb.rs buildpack, with its ID.
    Local(BuildpackId, PackageDescriptorDependency),
}

impl BuildpackDependency {
    /// The ID of a local buildpack; `None` for an external dependency.
    pub fn get_local_buildpack_id(&self) -> (r: Option<BuildpackId>)
        ensures
            match self {
                BuildpackDependency::External(_) => r is None,
                BuildpackDependency::Local(id, _) => r matches Some(x) && x@ == id@,
            },
    {
        match self {
            BuildpackDependency::External(_) => None,
            BuildpackDependency::Local(id, _) => Some(id.clone()),
        }
    }
}

/// The ID of the local buildpack a dependency names (`libcnb:<buildpack id>`): `None` where
/// its scheme is not `libcnb`, and an error where its path is no valid ID.
pub fn buildpack_id_from_libcnb_dependency(dependency: &PackageDescriptorDependency) -> (r: Result<
    Option<BuildpackId>,
    BuildpackIdError,
>)
    ensures
        !is_libcnb(dependency.uri.parts()) ==> r == Ok::<Option<BuildpackId>, BuildpackIdError>(None),
        is_libcnb(dependency.uri.parts()) && valid_buildpack_id(dependency.uri.parts().1) ==> (r matches Ok(
            Some(id),
        ) && id@ == dependency.uri.parts().1),
        is_libcnb(dependency.uri.parts()) && !valid_buildpack_id(dependency.uri.parts().1) ==> (r matches Err(
            BuildpackIdError::InvalidValue(v),
        ) && v@ == dependency.uri.parts().1),
{
    let is_local = match dependency.uri.scheme() {
        Some(scheme) => str_eq(scheme, "libcnb"),
        None => false,
    };
    if is_local {
        match BuildpackId::from_str(dependency.uri.path()) {
            Ok(id) => Ok(Some(id)),
            Err(e) => Err(e),
        }
    } else {
        Ok(None)
    }
}

/// Each dependency, told apart into local buildpacks and external ones, in order.
///
/// Fails at the first local dependency whose ID is invalid.
pub fn get_buildpack_dependencies(package_descriptor: &PackageDescriptor) -> (r: Result<
    Vec<BuildpackDependency>,
    BuildpackIdError,
>)
    ensures
        match first_invalid_local_id(dependency_parts(package_descriptor.dependencies@)) {
            Some(v) => r matches Err(BuildpackIdError::InvalidValue(x)) && x@ == v,
            None => r is Ok,
        },
        r matches Ok(ds) ==> ds@.len() == package_descriptor.dependencies@.len() && forall|k: int|
            0 <= k < ds@.len() ==> #[trigger] classified(
                ds@[k],
                dependency_parts(package_descriptor.dependencies@)[k],
            ),
{
    let deps = &package_descriptor.dependencies;
    let ghost ps = dependency_parts(deps@);
    let mut r: Vec<BuildpackDependency> = Vec::new();
    let mut k: usize = 0;
    while k < deps.len()
        invariant
            0 <= k <= deps@.len(),
            ps == dependency_parts(deps@),
            deps@ == package_descriptor.dependencies@,
            ps.len() == deps@.len(),
            local_ids_valid_upto(ps, k as int),
            r@.len() == k,
            forall|j: int| 0 <= j < k ==> #[trigger] classified(r@[j], ps[j]),
        decreases deps@.len() - k,
    {
        let dependency = &deps[k];
        assert(ps[k as int] == dependency.uri.parts());
        match buildpack_id_from_libcnb_dependency(dependency) {
            Ok(Some(id)) => {
                r.push(BuildpackDependency::Local(id, dependency.clone()));
            },
            Ok(None) => {
                r.push(BuildpackDependency::External(dependency.clone()));
            },
            Err(e) => {
                proof {
                    assert(is_libcnb(ps[k as int]) && !valid_buildpack_id(ps[k as int].1));
                    lemma_first_invalid_unique(ps, k as int);
                    assert(first_invalid_local_id(ps) == Some(ps[k as int].1));
                    match &e {
                        BuildpackIdError::InvalidValue(v) => {
                            assert(v@ == ps[k as int].1);
                        },
                    }
                }
                return Err(e);
            },
        }
        k += 1;
    }
    Ok(r)
}

/// `d` is what [`get_buildpack_dependencies`] makes of a dependency with the parts `p`.
pub open spec fn classified(d: BuildpackDependency, p: UriParts) -> bool {
    match d {
        BuildpackDependency::External(x) => !is_libcnb(p) && x.uri.parts() == p,
        BuildpackDependency::Local(id, x) => is_libcnb(p) && id@ == p.1 && x.uri.parts() == p,
    }
}

/// The IDs of the local libcnb.rs buildpacks that a package descriptor depends on
/// (`libcnb:<buildpack id>`), in order.
///
/// Fails at the first local dependency whose ID is invalid.
pub fn get_local_package_descriptor_dependencies(package_descriptor: &PackageDescriptor) -> (r: Result<
    Vec<BuildpackId>,
    BuildpackIdError,
>)
    ensures
        match first_invalid_local_id(dependency_parts(package_descriptor.dependencies@)) {
            Some(v) => r matches Err(BuildpackIdError::InvalidValue(x)) && x@ == v,
            None => r matches Ok(ids) && ids@.map_values(|id: BuildpackId| id@) == local_ids(
                dependency_parts(package_descriptor.dependencies@),
            ),
        },
{
    let ghost ps = dependency_parts(package_descriptor.dependencies@);
    let dependencies = match get_buildpack_dependencies(package_descriptor) {
        Ok(d) => d,
        Err(e) => {
            return Err(e);
        },
    };
    let mut ids: Vec<BuildpackId> = Vec::new();
    let mut k: usize = 0;
    while k < dependencies.len()
        invariant
            0 <= k <= dependencies@.len(),
            dependencies@.len() == ps.len(),
            forall|j: int| 0 <= j < dependencies@.len() ==> #[trigger] classified(dependencies@[j], ps[j]),
            ids@.map_values(|id: BuildpackId| id@) == local_ids(ps.take(k as int)),
        decreases dependencies@.len() - k,
    {
        assert(ps.take(k + 1).drop_last() == ps.take(k as int));
        assert(classified(dependencies@[k as int], ps[k as int]));
        match dependencies[k].get_local_buildpack_id() {
            Some(id) => {
                ids.push(id);
                assert(ids@.map_values(|id: BuildpackId| id@) =~= local_ids(ps.take(k + 1)));
            },
            None => {
                assert(ids@.map_values(|id: BuildpackId| id@) =~= local_ids(ps.take(k + 1)));
            },
        }
        k += 1;
    }
    assert(ps.take(ps.len() as int) == ps);
    Ok(ids)
}

/// The error of [`rewrite_package_descriptor_local_dependencies`].
#[derive(Debug)]
pub enum RewritePackageDescriptorLocalDependenciesError {
    /// The directory of a packaged dependency is no URI reference.
    InvalidDependency(String),
    /// A local dependency names an invalid buildpack ID.
    InvalidBuildpackIdReference(BuildpackIdError),
}

/// The error of [`rewrite_package_descriptor_relative_path_dependencies_to_absolute`].
#[derive(Debug)]
pub enum RewritePackageDescriptorRelativePathDependenciesToAbsoluteError {
    /// The absolute path of a dependency is no URI reference.
    InvalidDependency(String),
    /// A local dependency names an invalid buildpack ID.
    InvalidBuildpackIdReference(BuildpackIdError),
}

/// The text a dependency becomes when local dependencies are replaced by the directories
/// of their packaged buildpacks; `None` for one that stays as it is.
pub open spec fn local_rewrite(resolver: PackagedBuildpackDirResolver, p: UriParts) -> Option<Seq<char>> {
    if is_libcnb(p) {
        Some(
            packaged_buildpack_dir(
                resolver.package_dir@,
                resolver.cargo_profile,
                resolver.target_triple@,
                p.1,
            ),
        )
    } else {
        None
    }
}

/// The text a dependency becomes when relative path references are made absolute below
/// `source_dir`; `None` for one that stays as it is.
pub open spec fn relative_rewrite(source_dir: Seq<char>, p: UriParts) -> Option<Seq<char>> {
    if !is_libcnb(p) && p.2 {
        Some(join(source_dir, p.1))
    } else {
        None
    }
}

/// Rewriting the dependency with parts `p` to `rewrite` gives parts `q`: it is kept as it is
/// where there is nothing to rewrite, and is the parse of the new text otherwise.
pub open spec fn rewritten(rewrite: Option<Seq<char>>, p: UriParts, q: UriParts) -> bool {
    match rewrite {
        None => q == p,
        Some(t) => uri_reference_parts(t) == Some(q),
    }
}

/// The rewritten text (if any) of the dependency parses as a URI reference.
pub open spec fn rewrite_parses(rewrite: Option<Seq<char>>) -> bool {
    match rewrite {
        None => true,
        Some(t) => uri_reference_parts(t) is Some,
    }
}

/// Replaces each local libcnb.rs dependency by the directory its packaged buildpack is
/// written to, as the resolver finds it; the other dependencies, the buildpack and the
/// platform stay.
///
/// Fails where a local dependency names an invalid ID (the first one), or else where the
/// directory of a local dependency is no URI reference (the first one).
pub fn rewrite_package_descriptor_local_dependencies(
    package_descriptor: &PackageDescriptor,
    packaged_buildpack_dir_resolver: &PackagedBuildpackDirResolver,
) -> (r: Result<PackageDescriptor, RewritePackageDescriptorLocalDependenciesError>)
    ensures
        ({
            let ps = dependency_parts(package_descriptor.dependencies@);
            let res = *packaged_buildpack_dir_resolver;
            &&& first_invalid_local_id(ps) matches Some(v) ==> (r matches Err(
                RewritePackageDescriptorLocalDependenciesError::InvalidBuildpackIdReference(
                    BuildpackIdError::InvalidValue(x),
                ),
            ) && x@ == v)
            &&& r matches Err(RewritePackageDescriptorLocalDependenciesError::InvalidBuildpackIdReference(_))
                ==> first_invalid_local_id(ps) is Some
            &&& first_invalid_local_id(ps) is None ==> (r is Ok <==> forall|k: int|
                0 <= k < ps.len() ==> #[trigger] rewrite_parses(local_rewrite(res, ps[k])))
            &&& r matches Err(RewritePackageDescriptorLocalDependenciesError::InvalidDependency(t))
                ==> first_invalid_local_id(ps) is None && exists|k: int|
                0 <= k < ps.len() && (forall|j: int| 0 <= j < k ==> #[trigger] rewrite_parses(local_rewrite(res, ps[j])))
                    && #[trigger] local_rewrite(res, ps[k]) == Some(t@) && uri_reference_parts(t@) is None
            &&& r matches Ok(d) ==> d.buildpack.uri.parts() == package_descriptor.buildpack.uri.parts()
                && d.platform == package_descriptor.platform
                && d.dependencies@.len() == ps.len()
                && forall|k: int| 0 <= k < ps.len() ==> #[trigger] rewritten(
                local_rewrite(res, ps[k]),
                ps[k],
                d.dependencies@[k].uri.parts(),
            )
        }),
{
    let ghost ps = dependency_parts(package_descriptor.dependencies@);
    let ghost res = *packaged_buildpack_dir_resolver;
    let dependencies = match get_buildpack_dependencies(package_descriptor) {
        Ok(d) => d,
        Err(e) => {
            return Err(RewritePackageDescriptorLocalDependenciesError::InvalidBuildpackIdReference(e));
        },
    };
    let mut out: Vec<PackageDescriptorDependency> = Vec::new();
    let mut k: usize = 0;
    while k < dependencies.len()
        invariant
            0 <= k <= dependencies@.len(),
            dependencies@.len() == ps.len(),
            ps == dependency_parts(package_descriptor.dependencies@),
            first_invalid_local_id(ps) is None,
            res == *packaged_buildpack_dir_resolver,
            forall|j: int| 0 <= j < dependencies@.len() ==> #[trigger] classified(dependencies@[j], ps[j]),
            out@.len() == k,
            forall|j: int| 0 <= j < k ==> #[trigger] rewrite_parses(local_rewrite(res, ps[j])),
            forall|j: int| 0 <= j < k ==> #[trigger] rewritten(local_rewrite(res, ps[j]), ps[j], out@[j].uri.parts()),
        decreases dependencies@.len() - k,
    {
        assert(classified(dependencies@[k as int], ps[k as int]));
        match &dependencies[k] {
            BuildpackDependency::External(d) => {
                out.push(d.clone());
            },
            BuildpackDependency::Local(id, _) => {
                let dir = packaged_buildpack_dir_resolver.resolve(id);
                match PackageDescriptorDependency::try_from(dir.as_str()) {
                    Ok(d) => {
                        out.push(d);
                    },
                    Err(_) => {
                        proof {
                            assert(local_rewrite(res, ps[k as int]) == Some(dir@));
                            assert(uri_reference_parts(dir@) is None);
                            assert(!rewrite_parses(local_rewrite(res, ps[k as int])));
                        }
                        return Err(RewritePackageDescriptorLocalDependenciesError::InvalidDependency(dir));
                    },
                }
            },
        }
        k += 1;
    }
    Ok(PackageDescriptor {
        buildpack: package_descriptor.buildpack.clone(),
        dependencies: out,
        platform: package_descriptor.platform,
    })
}

/// Replaces each external dependency that is a relative path reference by its path joined
/// to `source_dir`; the other dependencies, the buildpack and the platform stay.
///
/// Fails where a local dependency names an invalid ID (the first one), or else where a
/// joined path is no URI reference (the first one).
pub fn rewrite_package_descriptor_relative_path_dependencies_to_absolute(
    package_descriptor: &PackageDescriptor,
    source_dir: &str,
) -> (r: Result<PackageDescriptor, RewritePackageDescriptorRelativePathDependenciesToAbsoluteError>)
    ensures
        ({
            let ps = dependency_parts(package_descriptor.dependencies@);
            &&& first_invalid_local_id(ps) matches Some(v) ==> (r matches Err(
                RewritePackageDescriptorRelativePathDependenciesToAbsoluteError::InvalidBuildpackIdReference(
                    BuildpackIdError::InvalidValue(x),
                ),
            ) && x@ == v)
            &&& r matches Err(
                RewritePackageDescriptorRelativePathDependenciesToAbsoluteError::InvalidBuildpackIdReference(_),
            ) ==> first_invalid_local_id(ps) is Some
            &&& first_invalid_local_id(ps) is None ==> (r is Ok <==> forall|k: int|
                0 <= k < ps.len() ==> #[trigger] rewrite_parses(relative_rewrite(source_dir@, ps[k])))
            &&& r matches Err(RewritePackageDescriptorRelativePathDependenciesToAbsoluteError::InvalidDependency(t))
                ==> first_invalid_local_id(ps) is None && exists|k: int|
                0 <= k < ps.len() && (forall|j: int| 0 <= j < k ==> #[trigger] rewrite_parses(relative_rewrite(source_dir@, ps[j])))
                    && #[trigger] relative_rewrite(source_dir@, ps[k]) == Some(t@) && uri_reference_parts(t@) is None
            &&& r matches Ok(d) ==> d.buildpack.uri.parts() == package_descriptor.buildpack.uri.parts()
                && d.platform == package_descriptor.platform
                && d.dependencies@.len() == ps.len()
                && forall|k: int| 0 <= k < ps.len() ==> #[trigger] rewritten(
                relative_rewrite(source_dir@, ps[k]),
                ps[k],
                d.dependencies@[k].uri.parts(),
            )
        }),
{
    let ghost ps = dependency_parts(package_descriptor.dependencies@);
    let dependencies = match get_buildpack_dependencies(package_descriptor) {
        Ok(d) => d,
        Err(e) => {
            return Err(
                RewritePackageDescriptorRelativePathDependenciesToAbsoluteError::InvalidBuildpackIdReference(e),
            );
        },
    };
    let mut out: Vec<PackageDescriptorDependency> = Vec::new();
    let mut k: usize = 0;
    while k < dependencies.len()
        invariant
            0 <= k <= dependencies@.len(),
            dependencies@.len() == ps.len(),
            ps == dependency_parts(package_descriptor.dependencies@),
            first_invalid_local_id(ps) is None,
            forall|j: int| 0 <= j < dependencies@.len() ==> #[trigger] classified(dependencies@[j], ps[j]),
            out@.len() == k,
            forall|j: int| 0 <= j < k ==> #[trigger] rewrite_parses(relative_rewrite(source_dir@, ps[j])),
            forall|j: int| 0 <= j < k ==> #[trigger] rewritten(relative_rewrite(source_dir@, ps[j]), ps[j], out@[j].uri.parts()),
        decreases dependencies@.len() - k,
    {
        assert(classified(dependencies@[k as int], ps[k as int]));
        match &dependencies[k] {
            BuildpackDependency::External(d) => {
                if d.uri.is_relative_path_reference() {
                    let absolute = join_path(source_dir, d.uri.path());
                    match PackageDescriptorDependency::try_from(absolute.as_str()) {
                        Ok(x) => {
                            out.push(x);
                        },
                        Err(_) => {
                            proof {
                                assert(relative_rewrite(source_dir@, ps[k as int]) == Some(absolute@));
                                assert(uri_reference_parts(absolute@) is None);
                                assert(!rewrite_parses(relative_rewrite(source_dir@, ps[k as int])));
                            }
                            return Err(
                                RewritePackageDescriptorRelativePathDependenciesToAbsoluteError::InvalidDependency(
                                    absolute,
                                ),
                            );
                        },
                    }
                } else {
                    out.push(d.clone());
                }
            },
            BuildpackDependency::Local(_, d) => {
                out.push(d.clone());
            },
        }
        k += 1;
    }
    Ok(PackageDescriptor {
        buildpack: package_descriptor.buildpack.clone(),
        dependencies: out,
        platform: package_descriptor.platform,
    })
}

} // verus!
