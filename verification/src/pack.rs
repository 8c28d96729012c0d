//! The `pack` commands that integration tests run, as argument lists.
use crate::args::{
    entry_args, flag_arg, option_arg, push_entries, push_flag, push_option, push_string, strings,
};
use crate::docker::opt_view;
use crate::sorted::{lookup, StringMap};
use vstd::prelude::*;

verus! {

/// A buildpack that `pack build` is given: by ID or by path.
#[derive(Debug, Clone)]
pub enum BuildpackReference {
    Id(String),
    Path(String),
}

/// Whether `pack` pulls images.
#[derive(Debug, Clone, Copy, PartialEq, Eq, Structural)]
pub enum PullPolicy {
    /// Always pull images.
    Always,
    /// Use local images where they are present.
    IfNotPresent,
    /// Never pull images.
    Never,
}

/// The name `pack` gives a pull policy.
pub open spec fn pull_policy_name(p: PullPolicy) -> Seq<char> {
    match p {
        PullPolicy::Always => "always"@,
        PullPolicy::IfNotPresent => "if-not-present"@,
        PullPolicy::Never => "never"@,
    }
}

/// The text of a buildpack reference: its ID or its path.
pub open spec fn reference_text(b: BuildpackReference) -> Seq<char> {
    match b {
        BuildpackReference::Id(id) => id@,
        BuildpackReference::Path(p) => p@,
    }
}

/// `["--buildpack", <reference>]` for each buildpack, in order.
pub open spec fn buildpack_args(bs: Seq<BuildpackReference>) -> Seq<Seq<char>>
    decreases bs.len(),
{
    if bs.len() == 0 {
        Seq::empty()
    } else {
        buildpack_args(bs.drop_last()) + seq!["--buildpack"@, reference_text(bs.last())]
    }
}

/// A `pack build` command.
#[derive(Debug, Clone)]
pub struct PackBuildCommand {
    pub builder: String,
    pub buildpacks: Vec<BuildpackReference>,
    pub env: StringMap,
    pub image_name: String,
    pub path: String,
    pub pull_policy: PullPolicy,
    pub trust_builder: bool,
    pub verbose: bool,
}

/// The arguments of `pack build`: the image, builder, path and pull policy, each buildpack
/// in order, the environment by key, and the flags that are set.
pub open spec fn pack_build_args(c: PackBuildCommand) -> Seq<Seq<char>> {
    seq![
        "build"@,
        c.image_name@,
        "--builder"@,
        c.builder@,
        "--path"@,
        c.path@,
        "--pull-policy"@,
        pull_policy_name(c.pull_policy),
    ] + buildpack_args(c.buildpacks@) + entry_args(c.env@, "--env"@, "="@) + flag_arg(
        c.trust_builder,
        "--trust-builder"@,
    ) + flag_arg(c.verbose, "--verbose"@)
}

impl PackBuildCommand {
    /// A command that builds `image_name` from the app at `path` with `builder`: no
    /// buildpacks or environment yet, pulling only missing images, trusting the builder,
    /// not verbose.
    pub fn new(builder: &str, path: &str, image_name: &str) -> (r: Self)
        ensures
            r.builder@ == builder@,
            r.buildpacks@.len() == 0,
            r.env@.len() == 0,
            r.image_name@ == image_name@,
            r.path@ == path@,
            r.pull_policy == PullPolicy::IfNotPresent,
            r.trust_builder,
            !r.verbose,
    {
        PackBuildCommand {
            builder: builder.to_owned(),
            buildpacks: Vec::new(),
            env: StringMap::new(),
            image_name: image_name.to_owned(),
            path: path.to_owned(),
            pull_policy: PullPolicy::IfNotPresent,
            trust_builder: true,
            verbose: false,
        }
    }

    /// Adds a buildpack.
    pub fn buildpack(&mut self, b: BuildpackReference) -> (r: &mut Self)
        ensures
            *final(self) == *final(r),
            r.buildpacks@ == old(self).buildpacks@.push(b),
            r.builder == old(self).builder,
            r.env@ == old(self).env@,
            r.image_name == old(self).image_name,
            r.path == old(self).path,
            r.pull_policy == old(self).pull_policy,
            r.trust_builder == old(self).trust_builder,
            r.verbose == old(self).verbose,
    {
        self.buildpacks.push(b);
        self
    }

    /// Sets an environment variable of the build.
    pub fn env(&mut self, k: &str, v: &str) -> (r: &mut Self)
        ensures
            *final(self) == *final(r),
            forall|key: Seq<char>|
                lookup(r.env@, key) == if key == k@ {
                    Some(v@)
                } else {
                    lookup(old(self).env@, key)
                },
            r.builder == old(self).builder,
            r.buildpacks == old(self).buildpacks,
            r.image_name == old(self).image_name,
            r.path == old(self).path,
            r.pull_policy == old(self).pull_policy,
            r.trust_builder == old(self).trust_builder,
            r.verbose == old(self).verbose,
    {
        self.env.insert(k.to_owned(), v.to_owned());
        self
    }

    /// The program to run: `pack`.
    pub fn program(&self) -> (r: &'static str)
        ensures
            r@ == "pack"@,
    {
        "pack"
    }

    /// The arguments of the command.
    pub fn args(&self) -> (r: Vec<String>)
        ensures
            strings(r@) == pack_build_args(*self),
    {
        let mut v: Vec<String> = Vec::new();
        push_string(&mut v, "build");
        push_string(&mut v, self.image_name.as_str());
        push_string(&mut v, "--builder");
        push_string(&mut v, self.builder.as_str());
        push_string(&mut v, "--path");
        push_string(&mut v, self.path.as_str());
        push_string(&mut v, "--pull-policy");
        let policy = match self.pull_policy {
            PullPolicy::Always => "always",
            PullPolicy::IfNotPresent => "if-not-present",
            PullPolicy::Never => "never",
        };
        push_string(&mut v, policy);
        let ghost start = strings(v@);
        let mut i: usize = 0;
        while i < self.buildpacks.len()
            invariant
                0 <= i <= self.buildpacks@.len(),
                strings(v@) == start + buildpack_args(self.buildpacks@.take(i as int)),
            decreases self.buildpacks@.len() - i,
        {
            push_string(&mut v, "--buildpack");
            match &self.buildpacks[i] {
                BuildpackReference::Id(id) => push_string(&mut v, id.as_str()),
                BuildpackReference::Path(p) => push_string(&mut v, p.as_str()),
            }
            proof {
                assert(self.buildpacks@.take(i + 1).drop_last() =~= self.buildpacks@.take(i as int));
                assert(self.buildpacks@.take(i + 1).last() == self.buildpacks@[i as int]);
            }
            i += 1;
        }
        assert(self.buildpacks@.take(self.buildpacks@.len() as int) =~= self.buildpacks@);
        push_entries(&mut v, &self.env, "--env", "=");
        push_flag(&mut v, self.trust_builder, "--trust-builder");
        push_flag(&mut v, self.verbose, "--verbose");
        assert(strings(v@) =~= pack_build_args(*self));
        v
    }
}

/// A `pack sbom download` command.
#[derive(Debug, Clone)]
pub struct PackSbomDownloadCommand {
    pub image_name: String,
    pub output_dir: Option<String>,
}

impl PackSbomDownloadCommand {
    /// A command that downloads the SBOM files of `image_name` to the current directory.
    pub fn new(image_name: &str) -> (r: Self)
        ensures
            r.image_name@ == image_name@,
            r.output_dir is None,
    {
        PackSbomDownloadCommand { image_name: image_name.to_owned(), output_dir: None }
    }

    /// Sets the directory the files are written to.
    pub fn output_dir(&mut self, output_dir: &str) -> (r: &mut Self)
        ensures
            *final(self) == *final(r),
            opt_view(r.output_dir) == Some(output_dir@),
            r.image_name == old(self).image_name,
    {
        self.output_dir = Some(output_dir.to_owned());
        self
    }

    /// The program to run: `pack`.
    pub fn program(&self) -> (r: &'static str)
        ensures
            r@ == "pack"@,
    {
        "pack"
    }

    /// The arguments: `sbom download`, the image, and the output directory where set.
    pub fn args(&self) -> (r: Vec<String>)
        ensures
            strings(r@) == seq!["sbom"@, "download"@, self.image_name@] + option_arg(
                opt_view(self.output_dir),
                "--output-dir"@,
            ),
    {
        let mut v: Vec<String> = Vec::new();
        push_string(&mut v, "sbom");
        push_string(&mut v, "download");
        push_string(&mut v, self.image_name.as_str());
        push_option(&mut v, &self.output_dir, "--output-dir");
        v
    }
}

} // verus!
