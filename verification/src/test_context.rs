//! The context of a running integration test: the image it built, and the commands that
//! start containers from it and download its software bills of materials.
use crate::args::strings;
use crate::buildpack_id::BuildpackId;
use crate::container_config::ContainerConfig;
use crate::container_context::ContainerContext;
use crate::docker::{opt_strings, opt_view, DockerRunCommand};
use crate::layer::LayerName;
use crate::output::{default_buildpack_directory_name, slashes_to_underscores};
use crate::pack::PackSbomDownloadCommand;
use crate::path::{join, join_path};
use crate::sbom::SbomFormat;
use crate::sorted::lookup;
use crate::test_config::TestConfig;
use crate::text::{push_str, str_eq};
use crate::util::cnb_launcher_binary;
use vstd::prelude::*;

verus! {

/// The Docker resources of a test: the image and the cache volumes that `pack` creates.
#[derive(Debug, Clone)]
pub struct TemporaryDockerResources {
    pub build_cache_volume_name: String,
    pub image_name: String,
    pub launch_cache_volume_name: String,
}

impl TemporaryDockerResources {
    /// The resources of a test whose image is called `image_name`: the cache volumes are
    /// `<image>.build-cache` and `<image>.launch-cache`.
    pub fn new(image_name: &str) -> (r: Self)
        ensures
            r.image_name@ == image_name@,
            r.build_cache_volume_name@ == image_name@ + ".build-cache"@,
            r.launch_cache_volume_name@ == image_name@ + ".launch-cache"@,
    {
        let mut build = image_name.to_owned();
        push_str(&mut build, ".build-cache");
        let mut launch = image_name.to_owned();
        push_str(&mut launch, ".launch-cache");
        TemporaryDockerResources {
            build_cache_volume_name: build,
            image_name: image_name.to_owned(),
            launch_cache_volume_name: launch,
        }
    }
}

/// The platform of containers built for a target triple, where it is known.
pub open spec fn container_platform(target_triple: Seq<char>) -> Option<Seq<char>> {
    if target_triple == "aarch64-unknown-linux-musl"@ {
        Some("linux/arm64"@)
    } else if target_triple == "x86_64-unknown-linux-musl"@ {
        Some("linux/amd64"@)
    } else {
        None
    }
}

/// The context of a running test: the output of `pack build`, the configuration, and the
/// Docker resources of the build.
pub struct TestContext<P> {
    pub pack_stdout: String,
    pub pack_stderr: String,
    pub config: TestConfig<P>,
    pub docker_resources: TemporaryDockerResources,
}

impl<P> TestContext<P> {
    /// The platform of the containers of this test, which the target triple determines.
    pub fn determine_container_platform(&self) -> (r: Option<&'static str>)
        ensures
            match container_platform(self.config.target_triple@) {
                Some(p) => r matches Some(x) && x@ == p,
                None => r is None,
            },
    {
        if str_eq(self.config.target_triple.as_str(), "aarch64-unknown-linux-musl") {
            Some("linux/arm64")
        } else if str_eq(self.config.target_triple.as_str(), "x86_64-unknown-linux-musl") {
            Some("linux/amd64")
        } else {
            None
        }
    }

    /// The command that starts a detached container called `container_name` from the image
    /// of the test, on the platform of the test, with the given configuration; and the
    /// context of that container.
    pub fn start_container(&self, config: &ContainerConfig, container_name: &str) -> (r: (
        DockerRunCommand,
        ContainerContext,
    ))
        requires
            container_platform(self.config.target_triple@) is Some,
        ensures
            r.0.container_name@ == container_name@,
            r.0.image_name@ == self.docker_resources.image_name@,
            r.0.detach,
            !r.0.remove,
            opt_view(r.0.platform) == container_platform(self.config.target_triple@),
            opt_view(r.0.entrypoint) == opt_view(config.entrypoint),
            opt_strings(r.0.command) == opt_strings(config.command),
            r.0.command is Some <==> config.command is Some,
            forall|k: Seq<char>| lookup(r.0.env@, k) == lookup(config.env@, k),
            r.0.exposed_ports@ == config.exposed_ports@,
            r.0.volumes@ == config.volumes@,
            r.1.container_name@ == container_name@,
            opt_view(r.1.config.entrypoint) == opt_view(config.entrypoint),
            opt_strings(r.1.config.command) == opt_strings(config.command),
            r.1.config.command is Some <==> config.command is Some,
            r.1.config.env@ == config.env@,
            r.1.config.exposed_ports@ == config.exposed_ports@,
            r.1.config.volumes@ == config.volumes@,
    {
        let platform = match self.determine_container_platform() {
            Some(p) => p,
            None => {
                proof {
                    assert(false);
                }
                ""
            },
        };
        let mut run = DockerRunCommand::new(self.docker_resources.image_name.as_str(), container_name);
        run.detach(true);
        run.platform(platform);
        match &config.entrypoint {
            Some(e) => {
                run.entrypoint(e.as_str());
            },
            None => {},
        }
        match &config.command {
            Some(c) => {
                run.command = Some(clone_strings(c));
            },
            None => {},
        }
        let n = config.env.len();
        let mut i: usize = 0;
        while i < n
            invariant
                0 <= i <= n,
                n == config.env@.len(),
                run.container_name@ == container_name@,
                run.image_name@ == self.docker_resources.image_name@,
                run.detach,
                !run.remove,
                opt_view(run.platform) == container_platform(self.config.target_triple@),
                opt_view(run.entrypoint) == opt_view(config.entrypoint),
                opt_strings(run.command) == opt_strings(config.command),
                run.command is Some <==> config.command is Some,
                run.exposed_ports@ == Set::<u16>::empty(),
                forall|k: Seq<char>| lookup(run.env@, k) == lookup(config.env@.take(i as int), k),
            decreases n - i,
        {
            let (key, value) = config.env.entry(i);
            run.env(key, value);
            proof {
                assert(config.env@.take(i + 1).drop_last() =~= config.env@.take(i as int));
                assert(config.env@.take(i + 1).last() == config.env@[i as int]);
            }
            i += 1;
        }
        assert(config.env@.take(n as int) =~= config.env@);
        run.exposed_ports = config.exposed_ports.clone();
        run.volumes = config.volumes.clone();
        let context = ContainerContext { container_name: container_name.to_owned(), config: config.clone() };
        (run, context)
    }

    /// The command that runs a shell command through the CNB launcher in a new container
    /// called `container_name`, which is removed when it exits.
    pub fn run_shell_command(&self, command: &str, container_name: &str) -> (r: DockerRunCommand)
        requires
            container_platform(self.config.target_triple@) is Some,
        ensures
            r.container_name@ == container_name@,
            r.image_name@ == self.docker_resources.image_name@,
            !r.detach,
            r.remove,
            opt_view(r.platform) == container_platform(self.config.target_triple@),
            opt_view(r.entrypoint) == Some("launcher"@),
            r.command is Some,
            opt_strings(r.command) == seq![command@],
            r.env@.len() == 0,
            r.exposed_ports@ == Set::<u16>::empty(),
            r.volumes@.len() == 0,
    {
        let platform = match self.determine_container_platform() {
            Some(p) => p,
            None => {
                proof {
                    assert(false);
                }
                ""
            },
        };
        let mut run = DockerRunCommand::new(self.docker_resources.image_name.as_str(), container_name);
        let parts = [command];
        run.remove(true).platform(platform).entrypoint(cnb_launcher_binary()).command(&parts);
        assert(parts@.map_values(|s: &str| s@) =~= seq![command@]);
        run
    }

    /// The command that downloads the software bills of materials of the image into
    /// `output_dir`.
    pub fn download_sbom_files(&self, output_dir: &str) -> (r: PackSbomDownloadCommand)
        ensures
            r.image_name@ == self.docker_resources.image_name@,
            opt_view(r.output_dir) == Some(output_dir@),
    {
        let mut command = PackSbomDownloadCommand::new(self.docker_resources.image_name.as_str());
        command.output_dir(output_dir);
        command
    }

    /// A subsequent build of the same test reuses the Docker resources of this one.
    pub fn rebuild(self) -> (r: TemporaryDockerResources)
        ensures
            r == self.docker_resources,
    {
        self.docker_resources
    }
}

/// A copy of a list of strings.
pub fn clone_strings(v: &Vec<String>) -> (r: Vec<String>)
    ensures
        strings(r@) == strings(v@),
{
    let mut r: Vec<String> = Vec::new();
    let mut i: usize = 0;
    while i < v.len()
        invariant
            0 <= i <= v@.len(),
            strings(r@) == strings(v@).take(i as int),
        decreases v@.len() - i,
    {
        crate::args::push_string(&mut r, v[i].as_str());
        assert(strings(v@).take(i + 1) =~= strings(v@).take(i as int).push(v@[i as int]@));
        i += 1;
    }
    assert(strings(v@).take(v@.len() as int) =~= strings(v@));
    r
}

/// The kind of a software bill of materials.
#[derive(Debug)]
pub enum SbomType {
    /// The bill of materials of the launch image.
    Launch,
    /// The bill of materials of a layer.
    Layer(LayerName),
}

/// Downloaded software bills of materials.
#[derive(Debug)]
pub struct SbomFiles {
    pub sbom_files_directory: String,
}

/// The file name of a format.
pub open spec fn sbom_file_name(f: SbomFormat) -> Seq<char> {
    match f {
        SbomFormat::CycloneDxJson => "sbom.cdx.json"@,
        SbomFormat::SpdxJson => "sbom.spdx.json"@,
        SbomFormat::SyftJson => "sbom.syft.json"@,
    }
}

/// The directory name of a kind: the layer name, or nothing for the launch image.
pub open spec fn sbom_type_dir(t: SbomType) -> Seq<char> {
    match t {
        SbomType::Launch => Seq::empty(),
        SbomType::Layer(name) => name@,
    }
}

impl SbomFiles {
    /// The path of a downloaded file:
    /// `<dir>/layers/sbom/launch/<buildpack dir name>/<layer or nothing>/<format file>`.
    pub fn path_for(&self, buildpack_id: &BuildpackId, sbom_type: &SbomType, format: SbomFormat) -> (r: String)
        ensures
            r@ == join(
                join(
                    join(
                        join(join(join(self.sbom_files_directory@, "layers"@), "sbom"@), "launch"@),
                        slashes_to_underscores(buildpack_id@),
                    ),
                    sbom_type_dir(*sbom_type),
                ),
                sbom_file_name(format),
            ),
    {
        let a = join_path(self.sbom_files_directory.as_str(), "layers");
        let b = join_path(a.as_str(), "sbom");
        let c = join_path(b.as_str(), "launch");
        let name = default_buildpack_directory_name(buildpack_id);
        let d = join_path(c.as_str(), name.as_str());
        let kind = match sbom_type {
            SbomType::Layer(layer_name) => layer_name.to_string(),
            SbomType::Launch => String::new(),
        };
        let e = join_path(d.as_str(), kind.as_str());
        let file = match format {
            SbomFormat::CycloneDxJson => "sbom.cdx.json",
            SbomFormat::SpdxJson => "sbom.spdx.json",
            SbomFormat::SyftJson => "sbom.syft.json",
        };
        join_path(e.as_str(), file)
    }
}

} // verus!
