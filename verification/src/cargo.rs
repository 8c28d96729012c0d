//! What packaging reads from Cargo: the binary targets of the root package, the command
//! line and environment of a build, and where Cargo puts its output.
use crate::args::{push_string, strings};
use crate::output::{profile_dir_name, CargoProfile};
use crate::path::{join, join_path};
use crate::text::str_eq;
use vstd::prelude::*;

verus! {

/// A target of a Cargo package: its name and kinds.
#[derive(Debug, Clone)]
pub struct CargoTarget {
    pub name: String,
    pub kind: Vec<String>,
}

/// A Cargo package: its name and targets.
#[derive(Debug)]
pub struct CargoPackage {
    pub name: String,
    pub targets: Vec<CargoTarget>,
}

/// The target is a binary: its kinds are exactly `["bin"]`.
pub open spec fn is_bin_target(t: CargoTarget) -> bool {
    strings(t.kind@) == seq!["bin"@]
}

/// The names of the binary targets, in order.
pub open spec fn bin_target_names(targets: Seq<CargoTarget>) -> Seq<Seq<char>>
    decreases targets.len(),
{
    if targets.len() == 0 {
        Seq::empty()
    } else if is_bin_target(targets.last()) {
        bin_target_names(targets.drop_last()).push(targets.last().name@)
    } else {
        bin_target_names(targets.drop_last())
    }
}

/// Whether a target is a binary.
fn target_is_bin(t: &CargoTarget) -> (r: bool)
    ensures
        r == is_bin_target(*t),
{
    if t.kind.len() == 1 {
        let b = str_eq(t.kind[0].as_str(), "bin");
        assert(strings(t.kind@)[0] == t.kind@[0]@);
        if b {
            assert(strings(t.kind@) =~= seq!["bin"@]);
        } else {
            assert(strings(t.kind@) != seq!["bin"@]);
        }
        b
    } else {
        assert(strings(t.kind@).len() != 1);
        false
    }
}

/// Whether the package has a target (of any kind) called `target_name`: the check that a
/// buildpack's binary target exists.
pub fn has_target_named(package: &CargoPackage, target_name: &str) -> (r: bool)
    ensures
        r == exists|i: int| 0 <= i < package.targets@.len() && #[trigger] package.targets@[i].name@ == target_name@,
{
    let mut i: usize = 0;
    while i < package.targets.len()
        invariant
            0 <= i <= package.targets@.len(),
            forall|j: int| 0 <= j < i ==> #[trigger] package.targets@[j].name@ != target_name@,
        decreases package.targets@.len() - i,
    {
        if str_eq(package.targets[i].name.as_str(), target_name) {
            return true;
        }
        i += 1;
    }
    false
}

/// The names of the binary targets of a package, in order.
pub fn cargo_binary_target_names(package: &CargoPackage) -> (r: Vec<String>)
    ensures
        strings(r@) == bin_target_names(package.targets@),
{
    let mut r: Vec<String> = Vec::new();
    let mut i: usize = 0;
    while i < package.targets.len()
        invariant
            0 <= i <= package.targets@.len(),
            strings(r@) == bin_target_names(package.targets@.take(i as int)),
        decreases package.targets@.len() - i,
    {
        let t = &package.targets[i];
        proof {
            assert(package.targets@.take(i + 1).drop_last() =~= package.targets@.take(i as int));
            assert(package.targets@.take(i + 1).last() == package.targets@[i as int]);
        }
        if target_is_bin(t) {
            push_string(&mut r, t.name.as_str());
        }
        i += 1;
    }
    assert(package.targets@.take(package.targets@.len() as int) =~= package.targets@);
    r
}

/// The error of [`determine_buildpack_cargo_target_name`].
#[derive(Debug, Clone, Copy, PartialEq, Eq, Structural)]
pub enum DetermineBuildpackCargoTargetNameError {
    NoRootPackage,
    NoBinTargets,
    AmbiguousBinTargets,
}

/// The binary target of the buildpack: the only one, or, among several, the one named like
/// the package.
pub open spec fn buildpack_target_name(package: CargoPackage) -> Result<Seq<char>, DetermineBuildpackCargoTargetNameError> {
    let bins = bin_target_names(package.targets@);
    if bins.len() == 0 {
        Err(DetermineBuildpackCargoTargetNameError::NoBinTargets)
    } else if bins.len() == 1 {
        Ok(bins[0])
    } else if bins.contains(package.name@) {
        Ok(package.name@)
    } else {
        Err(DetermineBuildpackCargoTargetNameError::AmbiguousBinTargets)
    }
}

/// How the buildpack's target is chosen: with no binary target there is none; with one it is
/// that one; with several it is the one named like the package, wherever it stands among
/// the targets, and otherwise the choice is ambiguous.
pub proof fn lemma_buildpack_target_choice(package: CargoPackage)
    ensures
        ({
            let bins = bin_target_names(package.targets@);
            &&& bins.len() == 0 ==> buildpack_target_name(package) == Err::<Seq<char>, DetermineBuildpackCargoTargetNameError>(
                DetermineBuildpackCargoTargetNameError::NoBinTargets,
            )
            &&& bins.len() == 1 ==> buildpack_target_name(package) == Ok::<Seq<char>, DetermineBuildpackCargoTargetNameError>(bins[0])
            &&& bins.len() >= 2 && (exists|i: int| 0 <= i < bins.len() && bins[i] == package.name@)
                ==> buildpack_target_name(package) == Ok::<Seq<char>, DetermineBuildpackCargoTargetNameError>(package.name@)
            &&& bins.len() >= 2 && (forall|i: int| 0 <= i < bins.len() ==> bins[i] != package.name@)
                ==> buildpack_target_name(package) == Err::<Seq<char>, DetermineBuildpackCargoTargetNameError>(
                DetermineBuildpackCargoTargetNameError::AmbiguousBinTargets,
            )
        }),
{
    let bins = bin_target_names(package.targets@);
    if exists|i: int| 0 <= i < bins.len() && bins[i] == package.name@ {
        let i = choose|i: int| 0 <= i < bins.len() && bins[i] == package.name@;
        assert(bins.contains(package.name@));
    }
}

/// The binary targets are exactly the targets whose kinds are `["bin"]`: a name is among
/// them exactly where such a target has it.
pub proof fn lemma_bin_target_names_members(targets: Seq<CargoTarget>, name: Seq<char>)
    ensures
        bin_target_names(targets).contains(name) <==> exists|i: int|
            0 <= i < targets.len() && strings(#[trigger] targets[i].kind@) == seq!["bin"@] && targets[i].name@
                == name,
    decreases targets.len(),
{
    if targets.len() > 0 {
        let rest = targets.drop_last();
        lemma_bin_target_names_members(rest, name);
        if bin_target_names(targets).contains(name) {
            if is_bin_target(targets.last()) && targets.last().name@ == name {
                assert(targets[targets.len() - 1] == targets.last());
            } else {
                if is_bin_target(targets.last()) {
                    let k = choose|k: int| 0 <= k < bin_target_names(targets).len() && bin_target_names(targets)[k] == name;
                    assert(k < bin_target_names(rest).len());
                    assert(bin_target_names(rest)[k] == name);
                }
                assert(bin_target_names(rest).contains(name));
                let i = choose|i: int|
                    0 <= i < rest.len() && strings(#[trigger] rest[i].kind@) == seq!["bin"@] && rest[i].name@ == name;
                assert(targets[i] == rest[i]);
            }
        }
        if exists|i: int|
            0 <= i < targets.len() && strings(#[trigger] targets[i].kind@) == seq!["bin"@] && targets[i].name@ == name {
            let i = choose|i: int|
                0 <= i < targets.len() && strings(#[trigger] targets[i].kind@) == seq!["bin"@] && targets[i].name@
                    == name;
            if i == targets.len() - 1 {
                assert(bin_target_names(targets).last() == name);
                assert(bin_target_names(targets).contains(name));
            } else {
                assert(rest[i] == targets[i]);
                assert(bin_target_names(rest).contains(name));
                let k = choose|k: int| 0 <= k < bin_target_names(rest).len() && bin_target_names(rest)[k] == name;
                if is_bin_target(targets.last()) {
                    assert(bin_target_names(targets)[k] == name);
                }
                assert(bin_target_names(targets).contains(name));
            }
        }
    }
}

/// Whether one of the strings is `s`.
fn contains_string(v: &Vec<String>, s: &str) -> (r: bool)
    ensures
        r == strings(v@).contains(s@),
{
    let mut i: usize = 0;
    while i < v.len()
        invariant
            0 <= i <= v@.len(),
            forall|j: int| 0 <= j < i ==> strings(v@)[j] != s@,
        decreases v@.len() - i,
    {
        if str_eq(v[i].as_str(), s) {
            assert(strings(v@)[i as int] == s@);
            return true;
        }
        i += 1;
    }
    false
}

/// The name of the binary target of the buildpack in the root package.
pub fn determine_buildpack_cargo_target_name(root_package: Option<&CargoPackage>) -> (r: Result<
    String,
    DetermineBuildpackCargoTargetNameError,
>)
    ensures
        match root_package {
            None => r == Err::<String, DetermineBuildpackCargoTargetNameError>(
                DetermineBuildpackCargoTargetNameError::NoRootPackage,
            ),
            Some(p) => match buildpack_target_name(*p) {
                Ok(name) => r matches Ok(x) && x@ == name,
                Err(e) => r == Err::<String, DetermineBuildpackCargoTargetNameError>(e),
            },
        },
{
    let package = match root_package {
        Some(p) => p,
        None => {
            return Err(DetermineBuildpackCargoTargetNameError::NoRootPackage);
        },
    };
    let bins = cargo_binary_target_names(package);
    if bins.len() == 0 {
        Err(DetermineBuildpackCargoTargetNameError::NoBinTargets)
    } else if bins.len() == 1 {
        Ok(bins[0].clone())
    } else if contains_string(&bins, package.name.as_str()) {
        Ok(package.name.clone())
    } else {
        Err(DetermineBuildpackCargoTargetNameError::AmbiguousBinTargets)
    }
}

/// The packaging configuration of a buildpack: its binary target.
#[derive(Debug)]
pub struct Config {
    pub buildpack_target: String,
}

/// The error of [`config_from_metadata`].
#[derive(Debug, Clone, Copy, PartialEq, Eq, Structural)]
pub enum ConfigError {
    MissingRootPackage,
    NoBinTargetsFound,
    MultipleBinTargetsFound,
}

/// The packaging configuration of the root package: its binary target, chosen as
/// [`determine_buildpack_cargo_target_name`] does.
pub fn config_from_metadata(root_package: Option<&CargoPackage>) -> (r: Result<Config, ConfigError>)
    ensures
        match root_package {
            None => r matches Err(ConfigError::MissingRootPackage),
            Some(p) => match buildpack_target_name(*p) {
                Ok(name) => r matches Ok(c) && c.buildpack_target@ == name,
                Err(DetermineBuildpackCargoTargetNameError::NoBinTargets) => r matches Err(
                    ConfigError::NoBinTargetsFound,
                ),
                Err(_) => r matches Err(ConfigError::MultipleBinTargetsFound),
            },
        },
{
    match determine_buildpack_cargo_target_name(root_package) {
        Ok(name) => Ok(Config { buildpack_target: name }),
        Err(DetermineBuildpackCargoTargetNameError::NoRootPackage) => Err(ConfigError::MissingRootPackage),
        Err(DetermineBuildpackCargoTargetNameError::NoBinTargets) => Err(ConfigError::NoBinTargetsFound),
        Err(DetermineBuildpackCargoTargetNameError::AmbiguousBinTargets) => Err(
            ConfigError::MultipleBinTargetsFound,
        ),
    }
}

/// The arguments of the `cargo` build of a target: `build --target <triple>`, and
/// `--release` for the release profile.
pub open spec fn cargo_build_args(profile: CargoProfile, target_triple: Seq<char>) -> Seq<Seq<char>> {
    seq!["build"@, "--target"@, target_triple] + match profile {
        CargoProfile::Dev => Seq::empty(),
        CargoProfile::Release => seq!["--release"@],
    }
}

/// The environment variables a build adds: stripped binaries, and no debug symbols for the
/// dev profile.
pub open spec fn cargo_profile_env(profile: CargoProfile) -> Seq<(Seq<char>, Seq<char>)> {
    match profile {
        CargoProfile::Dev => seq![
            ("CARGO_PROFILE_DEV_DEBUG"@, "false"@),
            ("CARGO_PROFILE_DEV_STRIP"@, "true"@),
        ],
        CargoProfile::Release => seq![("CARGO_PROFILE_RELEASE_STRIP"@, "true"@)],
    }
}

/// A build's environment keeps the given variables first, in order, and ends with what the
/// profile asks for: stripped release binaries (`CARGO_PROFILE_RELEASE_STRIP=true`), and for
/// the dev profile no debug symbols and stripped binaries (`CARGO_PROFILE_DEV_DEBUG=false`,
/// then `CARGO_PROFILE_DEV_STRIP=true`).
pub proof fn lemma_cargo_build_env_strips(profile: CargoProfile, env: Seq<(Seq<char>, Seq<char>)>)
    ensures
        ({
            let out = env + cargo_profile_env(profile);
            &&& out.take(env.len() as int) == env
            &&& profile == CargoProfile::Release ==> out.len() == env.len() + 1 && out.last() == (
                "CARGO_PROFILE_RELEASE_STRIP"@,
                "true"@,
            )
            &&& profile == CargoProfile::Dev ==> out.len() == env.len() + 2 && out[out.len() - 2] == (
                "CARGO_PROFILE_DEV_DEBUG"@,
                "false"@,
            ) && out.last() == ("CARGO_PROFILE_DEV_STRIP"@, "true"@)
        }),
{
    let out = env + cargo_profile_env(profile);
    assert(out.take(env.len() as int) =~= env);
}

/// The arguments of the `cargo` build of a buildpack binary.
pub fn cargo_build_arguments(profile: CargoProfile, target_triple: &str) -> (r: Vec<String>)
    ensures
        strings(r@) == cargo_build_args(profile, target_triple@),
{
    let mut v: Vec<String> = Vec::new();
    push_string(&mut v, "build");
    push_string(&mut v, "--target");
    push_string(&mut v, target_triple);
    match profile {
        CargoProfile::Dev => {},
        CargoProfile::Release => push_string(&mut v, "--release"),
    }
    assert(strings(v@) =~= cargo_build_args(profile, target_triple@));
    v
}

/// The environment of the `cargo` build of a buildpack binary: the given variables, then
/// those of the profile.
pub fn cargo_build_env(profile: CargoProfile, cargo_env: &Vec<(String, String)>) -> (r: Vec<(String, String)>)
    ensures
        crate::cross_compile::env_view(r@) == crate::cross_compile::env_view(cargo_env@) + cargo_profile_env(profile),
{
    let mut r: Vec<(String, String)> = Vec::new();
    let mut i: usize = 0;
    while i < cargo_env.len()
        invariant
            0 <= i <= cargo_env@.len(),
            r@.len() == i,
            crate::cross_compile::env_view(r@) == crate::cross_compile::env_view(cargo_env@).take(i as int),
        decreases cargo_env@.len() - i,
    {
        let e = &cargo_env[i];
        let k = e.0.as_str().to_owned();
        let v = e.1.as_str().to_owned();
        r.push((k, v));
        assert(r@[i as int].0@ == cargo_env@[i as int].0@);
        assert(r@[i as int].1@ == cargo_env@[i as int].1@);
        assert(crate::cross_compile::env_view(r@) =~= crate::cross_compile::env_view(cargo_env@).take(i + 1));
        i += 1;
    }
    assert(crate::cross_compile::env_view(cargo_env@).take(cargo_env@.len() as int) =~= crate::cross_compile::env_view(cargo_env@));
    let ghost before = r@;
    match profile {
        CargoProfile::Dev => {
            r.push(("CARGO_PROFILE_DEV_DEBUG".to_owned(), "false".to_owned()));
            r.push(("CARGO_PROFILE_DEV_STRIP".to_owned(), "true".to_owned()));
        },
        CargoProfile::Release => {
            r.push(("CARGO_PROFILE_RELEASE_STRIP".to_owned(), "true".to_owned()));
        },
    }
    assert(crate::cross_compile::env_view(r@) =~= crate::cross_compile::env_view(cargo_env@) + cargo_profile_env(profile));
    r
}

/// Where Cargo writes a binary: `<target dir>/<triple>/<debug or release>/<name>`.
pub fn binary_path(target_directory: &str, target_triple: &str, profile: CargoProfile, target_name: &str) -> (r: String)
    ensures
        r@ == join(join(join(target_directory@, target_triple@), profile_dir_name(profile)), target_name@),
{
    let a = join_path(target_directory, target_triple);
    let b = join_path(
        a.as_str(),
        match profile {
            CargoProfile::Dev => "debug",
            CargoProfile::Release => "release",
        },
    );
    join_path(b.as_str(), target_name)
}

} // verus!
