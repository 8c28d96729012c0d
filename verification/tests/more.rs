use libcnb::build_plan::{BuildPlanBuilder, Require};
use libcnb::buildpack_id::BuildpackId;
use libcnb::buildpack_package::{
    create_buildpack_package_graph, get_buildpack_package_dependencies, BuildpackPackage,
};
use libcnb::cargo::{cargo_build_env, config_from_metadata, CargoPackage, CargoTarget, ConfigError};
use libcnb::launch::{Label, LaunchBuilder, ProcessBuilder, ProcessType, Slice};
use libcnb::normalize::normalize_package_descriptor;
use libcnb::output::CargoProfile;
use libcnb::package_descriptor::{
    PackageDescriptor, PackageDescriptorBuildpackReference, PackageDescriptorDependency, Platform, PlatformOs,
};
use libcnb::sbom::{sbom_formats, SbomFormat};
use libcnb::test_runner::{apply_cargo_env_additions, instrumentation_setup, CargoEnvAddition};
use libcnb::workspace::{trim, workspace_root_from_locate_project};

#[test]
fn build_plan_builder_keeps_alternatives_in_order() {
    let plan = BuildPlanBuilder::new()
        .provides("rust")
        .require(Require::new("rust"))
        .or()
        .provides("java")
        .build();
    assert_eq!(plan.provides.len(), 1);
    assert_eq!(plan.provides[0].name, "rust");
    assert_eq!(plan.requires[0].name, "rust");
    assert_eq!(plan.or.len(), 1);
    assert_eq!(plan.or[0].provides[0].name, "java");
    assert!(plan.or[0].requires.is_empty());
    let empty = BuildPlanBuilder::new().build();
    assert!(empty.provides.is_empty() && empty.requires.is_empty() && empty.or.is_empty());
}

#[test]
fn launch_builder_collects_in_order() {
    let web = ProcessType::from_str("web").unwrap();
    let worker = ProcessType::from_str("worker").unwrap();
    let mut builder = LaunchBuilder::new();
    builder
        .process(ProcessBuilder::new(web, "java").build())
        .processes(vec![ProcessBuilder::new(worker, "sidekiq").build()])
        .label(Label { key: String::from("a"), value: String::from("1") })
        .slices(vec![Slice { path_globs: vec![String::from("*.jar")] }]);
    let launch = builder.build();
    assert_eq!(launch.processes.len(), 2);
    assert_eq!(launch.processes[1].command, "sidekiq");
    assert_eq!(launch.labels[0].key, "a");
    assert_eq!(launch.slices[0].path_globs, vec![String::from("*.jar")]);
}

fn package(id: &str, deps: &[&str]) -> BuildpackPackage {
    let mut descriptor = PackageDescriptor::try_default().unwrap();
    for d in deps {
        descriptor.dependencies.push(PackageDescriptorDependency::try_from(format!("libcnb:{d}").as_str()).unwrap());
    }
    BuildpackPackage {
        path: format!("/workspace/{id}"),
        buildpack_id: BuildpackId::from_str(id).unwrap(),
        package_descriptor: Some(descriptor),
    }
}

#[test]
fn buildpack_package_graph_orders_dependencies() {
    let graph = create_buildpack_package_graph(vec![package("a", &[]), package("b", &["a"]), package("c", &["b"])])
        .unwrap();
    let packages = graph.packages();
    let c = packages[2];
    let order: Vec<String> = get_buildpack_package_dependencies(&graph, &[c])
        .unwrap()
        .iter()
        .map(|p| p.buildpack_id().to_string())
        .collect();
    assert_eq!(order, ["a", "b", "c"]);
}

#[test]
fn config_from_cargo_metadata() {
    let package = CargoPackage {
        name: String::from("pkg"),
        targets: vec![
            CargoTarget { name: String::from("a"), kind: vec![String::from("bin")] },
            CargoTarget { name: String::from("b"), kind: vec![String::from("bin")] },
        ],
    };
    assert!(matches!(config_from_metadata(Some(&package)), Err(ConfigError::MultipleBinTargetsFound)));
    assert!(matches!(config_from_metadata(None), Err(ConfigError::MissingRootPackage)));
    assert_eq!(
        cargo_build_env(CargoProfile::Dev, &vec![(String::from("X"), String::from("1"))]),
        vec![
            (String::from("X"), String::from("1")),
            (String::from("CARGO_PROFILE_DEV_DEBUG"), String::from("false")),
            (String::from("CARGO_PROFILE_DEV_STRIP"), String::from("true")),
        ]
    );
}

#[test]
fn cargo_env_additions_extend_or_add() {
    let mut env = vec![(String::from("RUSTFLAGS"), String::from("-C opt-level=3"))];
    let additions = vec![
        CargoEnvAddition {
            key: String::from("RUSTFLAGS"),
            value: String::from("-C instrument-coverage"),
            separator: String::from(" "),
        },
        CargoEnvAddition { key: String::from("NEW"), value: String::from("v"), separator: String::from(":") },
    ];
    apply_cargo_env_additions(&mut env, &additions);
    assert_eq!(
        env,
        vec![
            (String::from("RUSTFLAGS"), String::from("-C opt-level=3 -C instrument-coverage")),
            (String::from("NEW"), String::from("v")),
        ]
    );
    let setup = instrumentation_setup("/w/target/coverage/profraw");
    assert_eq!(setup.volume.target, "/tmp/llvm-cov");
    assert_eq!(setup.pack_env.1, "/tmp/llvm-cov/%p-%m.profraw");
}

#[test]
fn workspace_root_is_parent_of_trimmed_manifest() {
    assert_eq!(trim("  \t/ws/Cargo.toml\n"), "/ws/Cargo.toml");
    assert_eq!(workspace_root_from_locate_project("/ws/Cargo.toml\n").unwrap(), "/ws");
    assert!(workspace_root_from_locate_project("\n").is_err());
}

#[test]
fn normalize_package_descriptor_uses_descriptor_directory() {
    let descriptor = PackageDescriptor {
        buildpack: PackageDescriptorBuildpackReference::try_from(".").unwrap(),
        dependencies: vec![
            PackageDescriptorDependency::try_from("libcnb:heroku/jvm").unwrap(),
            PackageDescriptorDependency::try_from("../shared/buildpack").unwrap(),
            PackageDescriptorDependency::try_from("docker://example/image").unwrap(),
        ],
        platform: Platform { os: PlatformOs::Windows },
    };
    let paths = vec![(BuildpackId::from_str("heroku/jvm").unwrap(), String::from("/out/heroku_jvm"))];
    let normalized =
        normalize_package_descriptor(&descriptor, "/ws/buildpacks/composite/package.toml", &paths).unwrap();
    assert_eq!(normalized.dependencies[0].uri.to_string(), "/out/heroku_jvm");
    assert_eq!(normalized.dependencies[1].uri.to_string(), "/ws/buildpacks/shared/buildpack");
    assert_eq!(normalized.dependencies[2].uri.to_string(), "docker://example/image");
    assert_eq!(normalized.platform.os, PlatformOs::Windows);
}

#[test]
fn sbom_format_media_types() {
    assert_eq!(sbom_formats(), vec![SbomFormat::CycloneDxJson, SbomFormat::SpdxJson, SbomFormat::SyftJson]);
    assert_eq!(SbomFormat::SpdxJson.as_str(), "application/spdx+json");
}
