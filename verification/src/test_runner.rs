//! The decisions of an integration test build: where the app is, which buildpacks and
//! environment `pack build` gets, and whether its outcome is the one the test expects.
use crate::log::{log_output_text, LogOutput};
use crate::pack::{self, PackBuildCommand};
use crate::path::{is_absolute, join, join_path};
use crate::sorted::lookup;
use crate::test_config::{BuildpackReference, PackResult, TestConfig};
use crate::test_context::TemporaryDockerResources;
use crate::text::{push_char, push_str, str_chars};
use crate::util::{command_error_text, CommandError};
use vstd::prelude::*;

verus! {

/// Runs integration tests.
#[derive(Debug, Clone, Copy)]
pub struct TestRunner {}

impl TestRunner {
    /// A runner.
    pub fn default() -> (r: Self) {
        TestRunner {}
    }

    /// The Docker resources of a new test build whose image is called `image_name`.
    pub fn build(&self, image_name: &str) -> (r: TemporaryDockerResources)
        ensures
            r.image_name@ == image_name@,
            r.build_cache_volume_name@ == image_name@ + ".build-cache"@,
            r.launch_cache_volume_name@ == image_name@ + ".launch-cache"@,
    {
        TemporaryDockerResources::new(image_name)
    }
}

/// The app directory of a test: a relative one is taken relative to the Cargo manifest
/// directory.
pub fn normalized_app_dir(app_dir: &str, cargo_manifest_dir: &str) -> (r: String)
    ensures
        r@ == if is_absolute(app_dir@) {
            app_dir@
        } else {
            join(cargo_manifest_dir@, app_dir@)
        },
{
    let cs = str_chars(app_dir);
    if cs.len() > 0 && cs[0] == '/' {
        app_dir.to_owned()
    } else {
        join_path(cargo_manifest_dir, app_dir)
    }
}

/// `p` is the reference `pack` gets for the buildpack `b` of the test: the packaged
/// buildpack of the crate by path, and another buildpack as it is given.
pub open spec fn references_buildpack(b: BuildpackReference, p: pack::BuildpackReference, crate_buildpack_dir: Seq<char>) -> bool {
    match b {
        BuildpackReference::Crate => p matches pack::BuildpackReference::Path(x) && x@ == crate_buildpack_dir,
        BuildpackReference::Other(id) => p matches pack::BuildpackReference::Id(x) && x@ == id@,
    }
}

/// The buildpacks `pack build` gets, in the order of the test's buildpacks: the buildpack of
/// the crate, packaged into `crate_buildpack_dir`, by path, and the others as they are.
pub fn create_buildpack_references(
    buildpacks: &Vec<BuildpackReference>,
    crate_buildpack_dir: &str,
) -> (r: Vec<pack::BuildpackReference>)
    ensures
        r@.len() == buildpacks@.len(),
        forall|k: int| 0 <= k < r@.len() ==> #[trigger] references_buildpack(buildpacks@[k], r@[k], crate_buildpack_dir@),
{
    let mut r: Vec<pack::BuildpackReference> = Vec::new();
    let mut k: usize = 0;
    while k < buildpacks.len()
        invariant
            0 <= k <= buildpacks@.len(),
            r@.len() == k,
            forall|j: int| 0 <= j < k ==> #[trigger] references_buildpack(buildpacks@[j], r@[j], crate_buildpack_dir@),
        decreases buildpacks@.len() - k,
    {
        match &buildpacks[k] {
            BuildpackReference::Crate => r.push(pack::BuildpackReference::Path(crate_buildpack_dir.to_owned())),
            BuildpackReference::Other(id) => r.push(pack::BuildpackReference::Id(id.clone())),
        }
        k += 1;
    }
    r
}

/// The `pack build` command of a test: the builder of the configuration, the app directory,
/// the image of the resources, the configuration's environment and the given buildpacks.
pub fn pack_build_command<P>(
    config: &TestConfig<P>,
    app_dir: &str,
    docker_resources: &TemporaryDockerResources,
    buildpacks: Vec<pack::BuildpackReference>,
) -> (r: PackBuildCommand)
    ensures
        r.builder@ == config.builder_name@,
        r.path@ == app_dir@,
        r.image_name@ == docker_resources.image_name@,
        forall|k: Seq<char>| lookup(r.env@, k) == lookup(config.env@, k),
        r.buildpacks@ == buildpacks@,
        r.pull_policy == pack::PullPolicy::IfNotPresent,
        r.trust_builder,
        !r.verbose,
{
    let mut command = PackBuildCommand::new(
        config.builder_name.as_str(),
        app_dir,
        docker_resources.image_name.as_str(),
    );
    let n = config.env.len();
    let mut i: usize = 0;
    while i < n
        invariant
            0 <= i <= n,
            n == config.env@.len(),
            command.builder@ == config.builder_name@,
            command.path@ == app_dir@,
            command.image_name@ == docker_resources.image_name@,
            command.buildpacks@.len() == 0,
            command.pull_policy == pack::PullPolicy::IfNotPresent,
            command.trust_builder,
            !command.verbose,
            forall|k: Seq<char>| lookup(command.env@, k) == lookup(config.env@.take(i as int), k),
        decreases n - i,
    {
        let (key, value) = config.env.entry(i);
        command.env(key, value);
        proof {
            assert(config.env@.take(i + 1).drop_last() =~= config.env@.take(i as int));
            assert(config.env@.take(i + 1).last() == config.env@[i as int]);
        }
        i += 1;
    }
    assert(config.env@.take(n as int) =~= config.env@);
    let mut rest = buildpacks;
    while rest.len() > 0
        invariant
            command.builder@ == config.builder_name@,
            command.path@ == app_dir@,
            command.image_name@ == docker_resources.image_name@,
            command.buildpacks@ + rest@ == buildpacks@,
            command.pull_policy == pack::PullPolicy::IfNotPresent,
            command.trust_builder,
            !command.verbose,
            forall|key: Seq<char>| lookup(command.env@, key) == lookup(config.env@, key),
        decreases rest@.len(),
    {
        let ghost before = rest@;
        let b = rest.remove(0);
        command.buildpack(b);
        assert(command.buildpacks@ + rest@ =~= buildpacks@);
    }
    assert(command.buildpacks@ =~= buildpacks@);
    command
}

/// What the output of `pack build` is, given the outcome the test expects: the output of a
/// build that went as expected (for an expected failure, that of the failing command), and
/// otherwise the message the test fails with.
pub open spec fn pack_outcome_text(expected: PackResult, result: Result<LogOutput, CommandError>) -> Result<
    (Seq<char>, Seq<char>),
    Seq<char>,
> {
    match (expected, result) {
        (PackResult::Success, Ok(o)) => Ok((o.stdout@, o.stderr@)),
        (PackResult::Failure, Err(CommandError::NonZeroExitCode { stdout, stderr, .. })) => Ok((stdout@, stderr@)),
        (PackResult::Failure, Ok(o)) => Err(
            "The pack build was expected to fail, but did not:\n\n"@ + log_output_text(o.stdout@, o.stderr@),
        ),
        (_, Err(e)) => Err("Error performing pack build:\n\n"@ + command_error_text(e)),
    }
}

/// Checks the outcome of `pack build` against the outcome the test expects: the output of
/// the build where it went as expected, and otherwise the message to fail the test with.
pub fn check_pack_result(expected: PackResult, result: Result<LogOutput, CommandError>) -> (r: Result<
    LogOutput,
    String,
>)
    ensures
        match pack_outcome_text(expected, result) {
            Ok((out, err)) => r matches Ok(o) && o.stdout@ == out && o.stderr@ == err,
            Err(m) => r matches Err(x) && x@ == m,
        },
{
    match (expected, result) {
        (PackResult::Success, Ok(o)) => Ok(o),
        (PackResult::Failure, Err(CommandError::NonZeroExitCode { stdout, stderr, .. })) => Ok(
            LogOutput { stdout, stderr },
        ),
        (PackResult::Failure, Ok(o)) => {
            let mut m = String::new();
            push_str(&mut m, "The pack build was expected to fail, but did not:\n\n");
            let text = o.to_string();
            push_str(&mut m, text.as_str());
            Err(m)
        },
        (_, Err(e)) => {
            let mut m = String::new();
            push_str(&mut m, "Error performing pack build:\n\n");
            let text = e.to_string();
            push_str(&mut m, text.as_str());
            Err(m)
        },
    }
}

/// `s` with ASCII capitals made lowercase.
pub open spec fn ascii_lowercase(s: Seq<char>) -> Seq<char> {
    s.map_values(|c: char| if 'A' <= c <= 'Z' { ((c as u8) + 32) as u8 as char } else { c })
}

/// An invalid value of `LIBCNB_INSTRUMENTATION`.
#[derive(Debug)]
pub struct InvalidInstrumentationEnvVar {
    pub value: String,
}

impl InvalidInstrumentationEnvVar {
    /// The message of the error.
    pub fn to_string(&self) -> (r: String)
        ensures
            r@ == "Invalid value for LIBCNB_INSTRUMENTATION: "@ + crate::text::str_debug(self.value@)
                + ". Expected \"1\", \"true\", \"0\", or \"false\"."@,
    {
        let mut m = String::new();
        push_str(&mut m, "Invalid value for LIBCNB_INSTRUMENTATION: ");
        let quoted = crate::text::debug_text(self.value.as_str());
        push_str(&mut m, quoted.as_str());
        push_str(&mut m, ". Expected \"1\", \"true\", \"0\", or \"false\".");
        m
    }
}

/// Whether the value of `LIBCNB_INSTRUMENTATION` (`None` where it is not set) turns
/// instrumentation on: `1` and `true` do, `0`, `false` and the empty value do not, in any
/// case of letters; any other value is an error.
pub fn instrumentation_enabled(value: Option<&str>) -> (r: Result<bool, InvalidInstrumentationEnvVar>)
    ensures
        match value {
            None => r == Ok::<bool, InvalidInstrumentationEnvVar>(false),
            Some(v) => {
                let l = ascii_lowercase(v@);
                if l == "1"@ || l == "true"@ {
                    r == Ok::<bool, InvalidInstrumentationEnvVar>(true)
                } else if l == "0"@ || l == "false"@ || l.len() == 0 {
                    r == Ok::<bool, InvalidInstrumentationEnvVar>(false)
                } else {
                    r matches Err(e) && e.value@ == v@
                }
            },
        },
{
    match value {
        None => Ok(false),
        Some(v) => {
            let cs = str_chars(v);
            let mut lower = String::new();
            let mut i: usize = 0;
            while i < cs.len()
                invariant
                    0 <= i <= cs@.len(),
                    cs@ == v@,
                    lower@ == ascii_lowercase(cs@.take(i as int)),
                decreases cs@.len() - i,
            {
                let c = cs[i];
                let d = if 'A' <= c && c <= 'Z' {
                    ((c as u8) + 32) as char
                } else {
                    c
                };
                push_char(&mut lower, d);
                assert(cs@.take(i + 1) =~= cs@.take(i as int).push(c));
                i += 1;
            }
            assert(cs@.take(cs@.len() as int) =~= cs@);
            let l = lower.as_str();
            if crate::text::str_eq(l, "1") || crate::text::str_eq(l, "true") {
                Ok(true)
            } else if crate::text::str_eq(l, "0") || crate::text::str_eq(l, "false") || cs.len() == 0 {
                Ok(false)
            } else {
                Err(InvalidInstrumentationEnvVar { value: v.to_owned() })
            }
        },
    }
}

/// A directory of the host mounted into the build containers.
#[derive(Debug, Clone)]
pub struct VolumeMount {
    pub source: String,
    pub target: String,
    pub options: Option<String>,
}

/// The text `pack` takes for a volume: `<source>:<target>`, then `:<options>` where there are
/// options.
pub open spec fn volume_text(v: VolumeMount) -> Seq<char> {
    v.source@ + ":"@ + v.target@ + match crate::docker::opt_view(v.options) {
        Some(o) => ":"@ + o,
        None => Seq::<char>::empty(),
    }
}

/// The arguments that mount a volume into the build: `--volume` and its text.
pub fn volume_args(volume: &VolumeMount) -> (r: Vec<String>)
    ensures
        crate::args::strings(r@) == seq!["--volume"@, volume_text(*volume)],
{
    let mut text = volume.source.clone();
    crate::text::push_str(&mut text, ":");
    crate::text::push_str(&mut text, volume.target.as_str());
    match &volume.options {
        Some(o) => {
            crate::text::push_str(&mut text, ":");
            crate::text::push_str(&mut text, o.as_str());
        },
        None => {},
    }
    assert(text@ == volume_text(*volume));
    let mut r: Vec<String> = Vec::new();
    crate::args::push_string(&mut r, "--volume");
    crate::args::push_string(&mut r, text.as_str());
    assert(crate::args::strings(r@) =~= seq!["--volume"@, volume_text(*volume)]);
    r
}

/// An addition to a variable of the Cargo environment: `value` is appended to the
/// variable's current value, after `separator`.
#[derive(Debug, Clone)]
pub struct CargoEnvAddition {
    pub key: String,
    pub value: String,
    pub separator: String,
}

/// What a build with coverage instrumentation needs: the profile directory mounted into
/// the build, the variable that tells instrumented binaries where to write, and the Rust
/// flags that instrument the buildpack.
#[derive(Debug)]
pub struct InstrumentationSetup {
    pub volume: VolumeMount,
    pub pack_env: (String, String),
    pub cargo_env_additions: Vec<CargoEnvAddition>,
}

/// The instrumentation setup that writes coverage profiles into `coverage_dir` of the
/// host, mounted at `/tmp/llvm-cov` in the build.
pub fn instrumentation_setup(coverage_dir: &str) -> (r: InstrumentationSetup)
    ensures
        r.volume.source@ == coverage_dir@,
        r.volume.target@ == "/tmp/llvm-cov"@,
        crate::docker::opt_view(r.volume.options) == Some("rw"@),
        r.pack_env.0@ == "LLVM_PROFILE_FILE"@,
        r.pack_env.1@ == "/tmp/llvm-cov/%p-%m.profraw"@,
        r.cargo_env_additions@.len() == 1,
        r.cargo_env_additions@[0].key@ == "RUSTFLAGS"@,
        r.cargo_env_additions@[0].value@ == "-C instrument-coverage"@,
        r.cargo_env_additions@[0].separator@ == " "@,
{
    let mut additions: Vec<CargoEnvAddition> = Vec::new();
    additions.push(
        CargoEnvAddition {
            key: "RUSTFLAGS".to_owned(),
            value: "-C instrument-coverage".to_owned(),
            separator: " ".to_owned(),
        },
    );
    InstrumentationSetup {
        volume: VolumeMount {
            source: coverage_dir.to_owned(),
            target: "/tmp/llvm-cov".to_owned(),
            options: Some("rw".to_owned()),
        },
        pack_env: ("LLVM_PROFILE_FILE".to_owned(), "/tmp/llvm-cov/%p-%m.profraw".to_owned()),
        cargo_env_additions: additions,
    }
}

/// The environment after one addition: the value of the first variable with its key is
/// extended by the separator and the value, or, where there is none, the variable is added.
pub open spec fn add_to_env(env: Seq<(Seq<char>, Seq<char>)>, a: (Seq<char>, Seq<char>, Seq<char>)) -> Seq<
    (Seq<char>, Seq<char>),
> {
    let keys = env.map_values(|e: (Seq<char>, Seq<char>)| e.0);
    match keys.index_of_first(a.0) {
        Some(i) => env.update(i, (env[i].0, env[i].1 + a.2 + a.1)),
        None => env.push((a.0, a.1)),
    }
}

/// The environment after the additions, in order.
pub open spec fn add_all_to_env(
    env: Seq<(Seq<char>, Seq<char>)>,
    additions: Seq<CargoEnvAddition>,
) -> Seq<(Seq<char>, Seq<char>)>
    decreases additions.len(),
{
    if additions.len() == 0 {
        env
    } else {
        let last = additions.last();
        add_to_env(add_all_to_env(env, additions.drop_last()), (last.key@, last.value@, last.separator@))
    }
}

/// The first position of a variable with the given key.
fn position_of_key(env: &Vec<(String, String)>, key: &str) -> (r: Option<usize>)
    ensures
        match r {
            Some(i) => i < env@.len() && env@[i as int].0@ == key@ && forall|j: int|
                0 <= j < i ==> env@[j].0@ != key@,
            None => forall|j: int| 0 <= j < env@.len() ==> env@[j].0@ != key@,
        },
{
    let mut i: usize = 0;
    while i < env.len()
        invariant
            0 <= i <= env@.len(),
            forall|j: int| 0 <= j < i ==> env@[j].0@ != key@,
        decreases env@.len() - i,
    {
        if crate::text::str_eq(env[i].0.as_str(), key) {
            return Some(i);
        }
        i += 1;
    }
    None
}

/// Applies the additions to a Cargo environment, in order: each extends the value of the
/// first variable with its key, after its separator, or adds the variable.
pub fn apply_cargo_env_additions(cargo_build_env: &mut Vec<(String, String)>, additions: &Vec<CargoEnvAddition>)
    ensures
        crate::cross_compile::env_view(final(cargo_build_env)@) == add_all_to_env(
            crate::cross_compile::env_view(old(cargo_build_env)@),
            additions@,
        ),
{
    let mut k: usize = 0;
    while k < additions.len()
        invariant
            0 <= k <= additions@.len(),
            crate::cross_compile::env_view(cargo_build_env@) == add_all_to_env(
                crate::cross_compile::env_view(old(cargo_build_env)@),
                additions@.take(k as int),
            ),
        decreases additions@.len() - k,
    {
        let addition = &additions[k];
        let ghost before = crate::cross_compile::env_view(cargo_build_env@);
        let ghost keys = before.map_values(|e: (Seq<char>, Seq<char>)| e.0);
        proof {
            keys.index_of_first_ensures(addition.key@);
            assert(additions@.take(k + 1).drop_last() =~= additions@.take(k as int));
            assert(additions@.take(k + 1).last() == additions@[k as int]);
        }
        match position_of_key(cargo_build_env, addition.key.as_str()) {
            Some(i) => {
                assert(keys[i as int] == addition.key@);
                assert(forall|j: int| 0 <= j < i ==> keys[j] != addition.key@);
                let mut entry = cargo_build_env.remove(i);
                push_str(&mut entry.1, addition.separator.as_str());
                push_str(&mut entry.1, addition.value.as_str());
                cargo_build_env.insert(i, entry);
                proof {
                    match keys.index_of_first(addition.key@) {
                        Some(f) => {
                            if f < i {
                                assert(keys[f] != addition.key@);
                            } else if f > i {
                                assert(keys[i as int] != addition.key@);
                            }
                        },
                        None => {
                            assert(keys.contains(addition.key@));
                        },
                    }
                }
            },
            None => {
                assert(forall|j: int| 0 <= j < keys.len() ==> keys[j] != addition.key@);
                cargo_build_env.push((addition.key.clone(), addition.value.clone()));
                proof {
                    if keys.contains(addition.key@) {
                        let j = choose|j: int| 0 <= j < keys.len() && keys[j] == addition.key@;
                        assert(keys[j] != addition.key@);
                    }
                }
            },
        }
        assert(crate::cross_compile::env_view(cargo_build_env@) =~= add_to_env(
            before,
            (addition.key@, addition.value@, addition.separator@),
        ));
        k += 1;
    }
    assert(additions@.take(additions@.len() as int) =~= additions@);
}

} // verus!
