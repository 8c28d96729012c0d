//! Where packaged buildpacks are written.
use crate::buildpack_id::BuildpackId;
use crate::path::{join, join_path};
use crate::text::push_char;
use vstd::prelude::*;

verus! {

/// The Cargo profile a buildpack is compiled with.
#[derive(Debug, Clone, Copy, PartialEq, Eq, Structural)]
pub enum CargoProfile {
    Dev,
    Release,
}

/// The directory Cargo writes the binaries of a profile to.
pub open spec fn profile_dir_name(profile: CargoProfile) -> Seq<char> {
    match profile {
        CargoProfile::Dev => "debug"@,
        CargoProfile::Release => "release"@,
    }
}

/// `s` with every `/` replaced by `_`.
pub open spec fn slashes_to_underscores(s: Seq<char>) -> Seq<char> {
    s.map_values(|c: char| if c == '/' { '_' } else { c })
}

/// The directory name of a packaged buildpack: its ID with every `/` replaced by `_`.
pub fn default_buildpack_directory_name(buildpack_id: &BuildpackId) -> (r: String)
    ensures
        r@ == slashes_to_underscores(buildpack_id@),
{
    let cs = crate::text::str_chars(buildpack_id.as_str());
    let mut r = String::new();
    let mut i: usize = 0;
    while i < cs.len()
        invariant
            0 <= i <= cs@.len(),
            cs@ == buildpack_id@,
            r@ == slashes_to_underscores(cs@.take(i as int)),
        decreases cs@.len() - i,
    {
        let c = cs[i];
        push_char(&mut r, if c == '/' { '_' } else { c });
        assert(cs@.take(i + 1) == cs@.take(i as int).push(c));
        i += 1;
    }
    assert(cs@.take(cs@.len() as int) == cs@);
    r
}

/// Finds the directory a buildpack is packaged into, below a package directory, for one
/// target triple and Cargo profile.
#[derive(Debug, Clone)]
pub struct PackagedBuildpackDirResolver {
    pub package_dir: String,
    pub cargo_profile: CargoProfile,
    pub target_triple: String,
}

/// The directory of the packaged buildpack `id`:
/// `<package dir>/<target triple>/<debug or release>/<directory name of the ID>`.
pub open spec fn packaged_buildpack_dir(
    package_dir: Seq<char>,
    profile: CargoProfile,
    target_triple: Seq<char>,
    id: Seq<char>,
) -> Seq<char> {
    join(join(join(package_dir, target_triple), profile_dir_name(profile)), slashes_to_underscores(id))
}

/// A resolver for the given package directory, Cargo profile and target triple.
pub fn create_packaged_buildpack_dir_resolver(
    package_dir: &str,
    cargo_profile: CargoProfile,
    target_triple: &str,
) -> (r: PackagedBuildpackDirResolver)
    ensures
        r.package_dir@ == package_dir@,
        r.cargo_profile == cargo_profile,
        r.target_triple@ == target_triple@,
{
    PackagedBuildpackDirResolver {
        package_dir: package_dir.to_owned(),
        cargo_profile,
        target_triple: target_triple.to_owned(),
    }
}

impl PackagedBuildpackDirResolver {
    /// The directory of the packaged buildpack with the given ID.
    pub fn resolve(&self, buildpack_id: &BuildpackId) -> (r: String)
        ensures
            r@ == packaged_buildpack_dir(
                self.package_dir@,
                self.cargo_profile,
                self.target_triple@,
                buildpack_id@,
            ),
    {
        let with_triple = join_path(self.package_dir.as_str(), self.target_triple.as_str());
        let profile = match self.cargo_profile {
            CargoProfile::Dev => "debug",
            CargoProfile::Release => "release",
        };
        let with_profile = join_path(with_triple.as_str(), profile);
        let name = default_buildpack_directory_name(buildpack_id);
        join_path(with_profile.as_str(), name.as_str())
    }
}

} // verus!
