//! Normalization of a package descriptor for packaging: local libcnb.rs dependencies are
//! replaced by the paths of their packaged buildpacks, and relative dependency paths are
//! made absolute against the directory of the descriptor.
use crate::buildpack_dependency::{
    buildpack_id_from_libcnb_dependency, dependency_parts, is_libcnb, UriParts,
};
use crate::buildpack_id::{valid_buildpack_id, BuildpackId, BuildpackIdError};
use crate::dependency_graph::position_of_id;
use crate::package_descriptor::{
    PackageDescriptor, PackageDescriptorDependency, PackageDescriptorDependencyError,
};
use crate::path::{absolutize, absolutize_path};
use crate::uri::uri_reference_parts;
use std::path::Path;
use vstd::prelude::*;

verus! {

/// The parent of a path as `std::path::Path::parent` gives it.
pub uninterp spec fn path_parent(p: Seq<char>) -> Option<Seq<char>>;

/// The parent directory of a path (`std::path::Path::parent`), or `None` for a path that
/// ends in a root or has no component.
///
/// Claimed: the result is a function of the path alone, named by [`path_parent`], and, as the
/// documentation of `Path::parent` says, there is no parent of the empty path or of the root
/// `/`. How the parent of other paths is found (separators, `.` components) is left to the
/// name.
#[verifier::external_body]
pub(crate) fn parent_of(path: &str) -> (r: Option<String>)
    ensures
        match path_parent(path@) {
            Some(p) => r matches Some(x) && x@ == p,
            None => r is None,
        },
        path@ == Seq::<char>::empty() ==> r is None,
        path@ == seq!['/'] ==> r is None,
{
    Path::new(path).parent().map(|p| p.to_string_lossy().to_string())
}

/// The error of [`replace_libcnb_uris`].
#[derive(Debug)]
pub enum ReplaceLibcnbUriError {
    /// A local dependency names an invalid buildpack ID.
    BuildpackIdError(BuildpackIdError),
    /// The path of a packaged buildpack is no URI reference.
    PackageDescriptorDependencyError(PackageDescriptorDependencyError),
    /// No path is given for a local dependency.
    MissingBuildpackPath(BuildpackId),
}

/// The error of [`normalize_package_descriptor`].
#[derive(Debug)]
pub enum NormalizePackageDescriptorError {
    ReplaceLibcnbUriError(ReplaceLibcnbUriError),
    PackageDescriptorDependencyError(PackageDescriptorDependencyError),
}

/// The path given for `id`: that of the first entry with this ID.
pub open spec fn path_for(paths: Seq<(BuildpackId, String)>, id: Seq<char>) -> Option<Seq<char>> {
    let ids = paths.map_values(|e: (BuildpackId, String)| e.0@);
    match ids.index_of_first(id) {
        Some(i) => Some(paths[i].1@),
        None => None,
    }
}

/// What happens to a dependency with parts `p` when local dependencies are replaced by the
/// given paths: `Ok(None)` where it stays, `Ok(Some(text))` where it becomes `text`, and an
/// error where its ID is invalid (`Err(Ok(id))`) or has no path (`Err(Err(id))`).
pub open spec fn libcnb_replacement(paths: Seq<(BuildpackId, String)>, p: UriParts) -> Result<
    Option<Seq<char>>,
    Result<Seq<char>, Seq<char>>,
> {
    if !is_libcnb(p) {
        Ok(None)
    } else if !valid_buildpack_id(p.1) {
        Err(Ok(p.1))
    } else {
        match path_for(paths, p.1) {
            Some(t) => Ok(Some(t)),
            None => Err(Err(p.1)),
        }
    }
}

/// The dependency with parts `p` can be replaced: its ID is valid and has a path that
/// parses.
pub open spec fn replacement_ok(paths: Seq<(BuildpackId, String)>, p: UriParts) -> bool {
    match libcnb_replacement(paths, p) {
        Ok(None) => true,
        Ok(Some(t)) => uri_reference_parts(t) is Some,
        Err(_) => false,
    }
}

/// The new dependency `q` is what replacing gives for parts `p`.
pub open spec fn replaced(paths: Seq<(BuildpackId, String)>, p: UriParts, q: UriParts) -> bool {
    match libcnb_replacement(paths, p) {
        Ok(None) => q == p,
        Ok(Some(t)) => uri_reference_parts(t) == Some(q),
        Err(_) => false,
    }
}

/// The error for the first dependency, `ps[k]`, that cannot be replaced.
pub open spec fn replacement_error(paths: Seq<(BuildpackId, String)>, p: UriParts, e: ReplaceLibcnbUriError) -> bool {
    match libcnb_replacement(paths, p) {
        Err(Ok(v)) => e matches ReplaceLibcnbUriError::BuildpackIdError(BuildpackIdError::InvalidValue(x))
            && x@ == v,
        Err(Err(id)) => e matches ReplaceLibcnbUriError::MissingBuildpackPath(x) && x@ == id,
        Ok(Some(t)) => uri_reference_parts(t) is None && (e matches ReplaceLibcnbUriError::PackageDescriptorDependencyError(
            PackageDescriptorDependencyError::InvalidUri(x),
        ) && x@ == t),
        Ok(None) => false,
    }
}

/// The path given for a buildpack ID, if any.
fn lookup_path(paths: &Vec<(BuildpackId, String)>, id: &BuildpackId) -> (r: Option<String>)
    ensures
        match path_for(paths@, id@) {
            Some(t) => r matches Some(x) && x@ == t,
            None => r is None,
        },
{
    let mut ids: Vec<BuildpackId> = Vec::new();
    let mut i: usize = 0;
    while i < paths.len()
        invariant
            0 <= i <= paths@.len(),
            ids@.len() == i,
            forall|j: int| 0 <= j < i ==> (#[trigger] ids@[j])@ == paths@[j].0@,
        decreases paths@.len() - i,
    {
        ids.push(paths[i].0.clone());
        i += 1;
    }
    assert(crate::dependency_graph::id_views(ids@) =~= paths@.map_values(|e: (BuildpackId, String)| e.0@));
    proof {
        crate::dependency_graph::id_views(ids@).index_of_first_ensures(id@);
    }
    match position_of_id(&ids, id) {
        Some(j) => Some(paths[j].1.clone()),
        None => None,
    }
}

/// Replaces each local libcnb.rs dependency (`libcnb:<buildpack id>`) by the path given for
/// its ID; the other dependencies, the buildpack and the platform stay.
///
/// Fails at the first dependency whose ID is invalid, has no path, or whose path is no URI
/// reference.
pub fn replace_libcnb_uris(
    descriptor: &PackageDescriptor,
    buildpack_paths: &Vec<(BuildpackId, String)>,
) -> (r: Result<PackageDescriptor, ReplaceLibcnbUriError>)
    ensures
        ({
            let ps = dependency_parts(descriptor.dependencies@);
            &&& r is Ok <==> forall|k: int| 0 <= k < ps.len() ==> #[trigger] replacement_ok(buildpack_paths@, ps[k])
            &&& r matches Err(e) ==> exists|k: int|
                0 <= k < ps.len() && (forall|j: int| 0 <= j < k ==> #[trigger] replacement_ok(buildpack_paths@, ps[j]))
                    && #[trigger] replacement_error(buildpack_paths@, ps[k], e)
            &&& r matches Ok(d) ==> d.buildpack.uri.parts() == descriptor.buildpack.uri.parts()
                && d.platform == descriptor.platform && d.dependencies@.len() == ps.len()
                && forall|k: int| 0 <= k < ps.len() ==> #[trigger] replaced(
                buildpack_paths@,
                ps[k],
                d.dependencies@[k].uri.parts(),
            )
        }),
{
    let ghost ps = dependency_parts(descriptor.dependencies@);
    let ghost paths = buildpack_paths@;
    let deps = &descriptor.dependencies;
    let mut out: Vec<PackageDescriptorDependency> = Vec::new();
    let mut k: usize = 0;
    while k < deps.len()
        invariant
            0 <= k <= deps@.len(),
            deps@ == descriptor.dependencies@,
            ps == dependency_parts(deps@),
            paths == buildpack_paths@,
            out@.len() == k,
            forall|j: int| 0 <= j < k ==> #[trigger] replacement_ok(paths, ps[j]),
            forall|j: int| 0 <= j < k ==> #[trigger] replaced(paths, ps[j], out@[j].uri.parts()),
        decreases deps@.len() - k,
    {
        let dependency = &deps[k];
        assert(ps[k as int] == dependency.uri.parts());
        match buildpack_id_from_libcnb_dependency(dependency) {
            Err(e) => {
                proof {
                    assert(!replacement_ok(paths, ps[k as int]));
                    match &e {
                        BuildpackIdError::InvalidValue(v) => {
                            assert(v@ == ps[k as int].1);
                        },
                    }
                    let ee = ReplaceLibcnbUriError::BuildpackIdError(e);
                    assert(replacement_error(paths, ps[k as int], ee));
                }
                return Err(ReplaceLibcnbUriError::BuildpackIdError(e));
            },
            Ok(None) => {
                out.push(dependency.clone());
            },
            Ok(Some(id)) => {
                match lookup_path(buildpack_paths, &id) {
                    None => {
                        proof {
                            assert(!replacement_ok(paths, ps[k as int]));
                            let ee = ReplaceLibcnbUriError::MissingBuildpackPath(id);
                            assert(replacement_error(paths, ps[k as int], ee));
                        }
                        return Err(ReplaceLibcnbUriError::MissingBuildpackPath(id));
                    },
                    Some(path) => {
                        match PackageDescriptorDependency::try_from(path.as_str()) {
                            Ok(d) => {
                                out.push(d);
                            },
                            Err(e) => {
                                proof {
                                    assert(!replacement_ok(paths, ps[k as int]));
                                    match &e {
                                        PackageDescriptorDependencyError::InvalidUri(v) => {
                                            assert(v@ == path@);
                                        },
                                    }
                                    let ee = ReplaceLibcnbUriError::PackageDescriptorDependencyError(e);
                                    assert(replacement_error(paths, ps[k as int], ee));
                                }
                                return Err(ReplaceLibcnbUriError::PackageDescriptorDependencyError(e));
                            },
                        }
                    },
                }
            },
        }
        k += 1;
    }
    Ok(PackageDescriptor {
        buildpack: descriptor.buildpack.clone(),
        dependencies: out,
        platform: descriptor.platform,
    })
}

/// The text a dependency with parts `p` becomes when relative paths are made absolute
/// against `parent`: only a dependency without a scheme changes.
pub open spec fn absolutized(parent: Seq<char>, p: UriParts) -> Option<Seq<char>> {
    if p.0 is None {
        Some(absolutize(p.1, parent))
    } else {
        None
    }
}

/// The absolutized text of the dependency, if it has one, parses.
pub open spec fn absolutized_parses(parent: Seq<char>, p: UriParts) -> bool {
    match absolutized(parent, p) {
        None => true,
        Some(t) => uri_reference_parts(t) is Some,
    }
}

/// `r` is what making the dependency paths of `descriptor` absolute against `parent` gives:
/// success where every new path parses, and otherwise the error of the first that does not.
pub open spec fn absolutize_outcome(
    descriptor: &PackageDescriptor,
    parent: Seq<char>,
    r: Result<PackageDescriptor, PackageDescriptorDependencyError>,
) -> bool {
    let ps = dependency_parts(descriptor.dependencies@);
    &&& r is Ok <==> forall|k: int| 0 <= k < ps.len() ==> #[trigger] absolutized_parses(parent, ps[k])
    &&& r matches Err(PackageDescriptorDependencyError::InvalidUri(t)) ==> exists|k: int|
        0 <= k < ps.len() && (forall|j: int| 0 <= j < k ==> #[trigger] absolutized_parses(parent, ps[j]))
            && #[trigger] absolutized(parent, ps[k]) == Some(t@) && uri_reference_parts(t@) is None
    &&& r matches Ok(d) ==> d.buildpack.uri.parts() == descriptor.buildpack.uri.parts()
        && d.platform == descriptor.platform && d.dependencies@.len() == ps.len()
        && forall|k: int| 0 <= k < ps.len() ==> #[trigger] crate::buildpack_dependency::rewritten(
        absolutized(parent, ps[k]),
        ps[k],
        d.dependencies@[k].uri.parts(),
    )
}

/// The descriptor or the dependency error of a normalization that got past the replacement
/// of local dependencies.
pub open spec fn after_replacement(r: Result<PackageDescriptor, NormalizePackageDescriptorError>) -> Result<
    PackageDescriptor,
    PackageDescriptorDependencyError,
> {
    match r {
        Ok(n) => Ok(n),
        Err(NormalizePackageDescriptorError::PackageDescriptorDependencyError(e)) => Err(e),
        Err(NormalizePackageDescriptorError::ReplaceLibcnbUriError(_)) => Err(arbitrary()),
    }
}

/// Makes the path of each dependency without a scheme absolute against `parent` (and
/// normalizes it); the other dependencies, the buildpack and the platform stay.
///
/// Fails at the first dependency whose new path is no URI reference.
pub fn absolutize_dependency_paths(descriptor: &PackageDescriptor, parent: &str) -> (r: Result<
    PackageDescriptor,
    PackageDescriptorDependencyError,
>)
    ensures
        absolutize_outcome(descriptor, parent@, r),
{
    let ghost ps = dependency_parts(descriptor.dependencies@);
    let deps = &descriptor.dependencies;
    let mut out: Vec<PackageDescriptorDependency> = Vec::new();
    let mut k: usize = 0;
    while k < deps.len()
        invariant
            0 <= k <= deps@.len(),
            deps@ == descriptor.dependencies@,
            ps == dependency_parts(deps@),
            out@.len() == k,
            forall|j: int| 0 <= j < k ==> #[trigger] absolutized_parses(parent@, ps[j]),
            forall|j: int| 0 <= j < k ==> #[trigger] crate::buildpack_dependency::rewritten(
                absolutized(parent@, ps[j]),
                ps[j],
                out@[j].uri.parts(),
            ),
        decreases deps@.len() - k,
    {
        let dependency = &deps[k];
        assert(ps[k as int] == dependency.uri.parts());
        match dependency.uri.scheme() {
            None => {
                let absolute = absolutize_path(dependency.uri.path(), parent);
                match PackageDescriptorDependency::try_from(absolute.as_str()) {
                    Ok(d) => {
                        out.push(d);
                    },
                    Err(e) => {
                        proof {
                            assert(absolutized(parent@, ps[k as int]) == Some(absolute@));
                            assert(!absolutized_parses(parent@, ps[k as int]));
                        }
                        return Err(e);
                    },
                }
            },
            Some(_) => {
                out.push(dependency.clone());
            },
        }
        k += 1;
    }
    Ok(PackageDescriptor {
        buildpack: descriptor.buildpack.clone(),
        dependencies: out,
        platform: descriptor.platform,
    })
}

/// Normalizes a package descriptor read from `descriptor_path`: local dependencies are
/// replaced by the given paths ([`replace_libcnb_uris`]), then relative dependency paths
/// are made absolute against the descriptor's directory ([`absolutize_dependency_paths`];
/// the empty path where it has none).
pub fn normalize_package_descriptor(
    descriptor: &PackageDescriptor,
    descriptor_path: &str,
    buildpack_paths: &Vec<(BuildpackId, String)>,
) -> (r: Result<PackageDescriptor, NormalizePackageDescriptorError>)
    ensures
        ({
            let ps = dependency_parts(descriptor.dependencies@);
            let parent = match path_parent(descriptor_path@) {
                Some(p) => p,
                None => Seq::empty(),
            };
            &&& (r matches Err(NormalizePackageDescriptorError::ReplaceLibcnbUriError(_))) <==> !forall|k: int|
                0 <= k < ps.len() ==> #[trigger] replacement_ok(buildpack_paths@, ps[k])
            &&& r matches Err(NormalizePackageDescriptorError::ReplaceLibcnbUriError(e)) ==> exists|k: int|
                0 <= k < ps.len() && (forall|j: int| 0 <= j < k ==> #[trigger] replacement_ok(buildpack_paths@, ps[j]))
                    && #[trigger] replacement_error(buildpack_paths@, ps[k], e)
            &&& !(r matches Err(NormalizePackageDescriptorError::ReplaceLibcnbUriError(_))) ==> exists|d: PackageDescriptor|
                #[trigger] replace_libcnb_uris_result(descriptor, buildpack_paths@, d) && absolutize_outcome(
                &d,
                parent,
                after_replacement(r),
            )
        }),
{
    let replaced = match replace_libcnb_uris(descriptor, buildpack_paths) {
        Ok(d) => d,
        Err(e) => {
            return Err(NormalizePackageDescriptorError::ReplaceLibcnbUriError(e));
        },
    };
    let parent = match parent_of(descriptor_path) {
        Some(p) => p,
        None => String::new(),
    };
    proof {
        assert(replace_libcnb_uris_result(descriptor, buildpack_paths@, replaced));
    }
    let absolutized = absolutize_dependency_paths(&replaced, parent.as_str());
    let r = match absolutized {
        Ok(d) => Ok(d),
        Err(e) => Err(NormalizePackageDescriptorError::PackageDescriptorDependencyError(e)),
    };
    assert(after_replacement(r) == absolutized);
    r
}

/// `d` is the descriptor that [`replace_libcnb_uris`] gives on success.
pub open spec fn replace_libcnb_uris_result(
    descriptor: &PackageDescriptor,
    paths: Seq<(BuildpackId, String)>,
    d: PackageDescriptor,
) -> bool {
    let ps = dependency_parts(descriptor.dependencies@);
    &&& d.buildpack.uri.parts() == descriptor.buildpack.uri.parts()
    &&& d.platform == descriptor.platform
    &&& d.dependencies@.len() == ps.len()
    &&& forall|k: int| 0 <= k < ps.len() ==> #[trigger] replaced(paths, ps[k], d.dependencies@[k].uri.parts())
}

} // verus!
