use libcnb::api::BuildpackApi;
use libcnb::buildpack_id::BuildpackId;
use libcnb::buildpack_package::{
    create_buildpack_package_graph, get_buildpack_package_dependencies, BuildpackPackage,
    ReadBuildpackPackageError,
};
use libcnb::buildpack_toml::Stack;
use libcnb::docker::{
    DockerExecCommand, DockerLogsCommand, DockerPortCommand, DockerRemoveContainerCommand,
    DockerRemoveImageCommand,
};
use libcnb::launch::{LaunchBuilder, ProcessBuilder, ProcessType};
use libcnb::package_descriptor::{
    PackageDescriptor, PackageDescriptorBuildpackReference, PackageDescriptorDependency, Platform,
};
use libcnb::stack_id::StackId;
use libcnb::test_runner::{apply_cargo_env_additions, CargoEnvAddition};
use libcnb::version::BuildpackVersion;

#[test]
fn buildpack_buildpack_id_does_not_allow_app() {
    let result = BuildpackId::from_str("app");
    assert!(result.is_err());
}

#[test]
fn buildpack_buildpack_id_does_not_allow_config() {
    let result = BuildpackId::from_str("config");
    assert!(result.is_err());
}

#[test]
fn id_buildpack_id_does_not_allow_app() {
    let result = BuildpackId::from_str("app");
    assert!(result.is_err());
}

#[test]
fn id_buildpack_id_does_not_allow_config() {
    let result = BuildpackId::from_str("config");
    assert!(result.is_err());
}

#[test]
fn buildpack_id_from_str_major_minor() {
    let result = BuildpackApi::from_str("0.4");
    assert!(result.is_ok());
    if let Ok(api) = result {
        assert_eq!(0, api.major);
        assert_eq!(4, api.minor);
    }
}

#[test]
fn buildpack_id_from_str_major() {
    let result = BuildpackApi::from_str("1");
    assert!(result.is_ok());
    if let Ok(api) = result {
        assert_eq!(1, api.major);
        assert_eq!(0, api.minor);
    }
}

#[test]
fn cannot_use_star_stack_id_with_mixins() {
    let result = Stack::try_from(StackId::from_str("*").unwrap(), vec![String::from("yolo")]);
    assert!(&result.is_err());
}

#[test]
fn deserialize_valid_api_versions() {
    assert_eq!(BuildpackApi::try_from("1.3").unwrap(), BuildpackApi { major: 1, minor: 3 });
    assert_eq!(BuildpackApi::try_from("0.0").unwrap(), BuildpackApi { major: 0, minor: 0 });
    assert_eq!(
        BuildpackApi::try_from("2020.10").unwrap(),
        BuildpackApi {
            major: 2020,
            minor: 10,
        }
    );
    assert_eq!(BuildpackApi::try_from("2").unwrap(), BuildpackApi { major: 2, minor: 0 });
}

fn api_error(value: &str) -> String {
    BuildpackApi::try_from(value).unwrap_err().to_string()
}

#[test]
fn reject_invalid_api_versions() {
    assert_eq!(
        api_error("1.2.3"),
        "Found `1.2.3` but value MUST be in the form `<major>.<minor>` or `<major>` and only contain numbers."
    );
    assert_eq!(
        api_error("1.2-dev"),
        "Found `1.2-dev` but value MUST be in the form `<major>.<minor>` or `<major>` and only contain numbers."
    );
    assert_eq!(
        api_error("-1"),
        "Found `-1` but value MUST be in the form `<major>.<minor>` or `<major>` and only contain numbers."
    );
    assert_eq!(
        api_error(".1"),
        "Found `.1` but value MUST be in the form `<major>.<minor>` or `<major>` and only contain numbers."
    );
    assert_eq!(
        api_error("1."),
        "Found `1.` but value MUST be in the form `<major>.<minor>` or `<major>` and only contain numbers."
    );
    assert_eq!(
        api_error("1..2"),
        "Found `1..2` but value MUST be in the form `<major>.<minor>` or `<major>` and only contain numbers."
    );
    assert_eq!(
        api_error(""),
        "Found `` but value MUST be in the form `<major>.<minor>` or `<major>` and only contain numbers."
    );
}

fn version(value: &str) -> BuildpackVersion {
    BuildpackVersion::try_from(String::from(value)).unwrap()
}

fn version_error(value: &str) -> String {
    BuildpackVersion::try_from(String::from(value))
        .unwrap_err()
        .to_string()
}

#[test]
fn deserialize_valid_versions() {
    assert_eq!(
        version("1.3.4"),
        BuildpackVersion {
            major: 1,
            minor: 3,
            patch: 4,
        }
    );
    assert_eq!(
        version("0.0.0"),
        BuildpackVersion {
            major: 0,
            minor: 0,
            patch: 0,
        }
    );
    assert_eq!(
        version("1234.5678.9876"),
        BuildpackVersion {
            major: 1234,
            minor: 5678,
            patch: 9876,
        }
    );
}

#[test]
fn reject_wrong_number_of_version_parts() {
    assert_eq!(version_error(""), "Invalid buildpack version: ``");
    assert_eq!(version_error("12345"), "Invalid buildpack version: `12345`");
    assert_eq!(version_error("1.2"), "Invalid buildpack version: `1.2`");
    assert_eq!(version_error("1.2.3.4"), "Invalid buildpack version: `1.2.3.4`");
    assert_eq!(version_error(".2.3"), "Invalid buildpack version: `.2.3`");
    assert_eq!(version_error("1.2."), "Invalid buildpack version: `1.2.`");
    assert_eq!(version_error("1..3"), "Invalid buildpack version: `1..3`");
    assert_eq!(version_error("1..2.3"), "Invalid buildpack version: `1..2.3`");
    assert_eq!(version_error("1.2_3"), "Invalid buildpack version: `1.2_3`");
}

#[test]
fn reject_version_suffixes() {
    assert_eq!(version_error("1.2.3-dev"), "Invalid buildpack version: `1.2.3-dev`");
    assert_eq!(version_error("1.2.3+abc"), "Invalid buildpack version: `1.2.3+abc`");
}

#[test]
fn reject_negative_versions() {
    assert_eq!(version_error("-1.2.3"), "Invalid buildpack version: `-1.2.3`");
    assert_eq!(version_error("1.-2.3"), "Invalid buildpack version: `1.-2.3`");
    assert_eq!(version_error("1.2.-3"), "Invalid buildpack version: `1.2.-3`");
}

#[test]
fn reject_versions_with_leading_zeros() {
    assert_eq!(version_error("01.2.3"), "Invalid buildpack version: `01.2.3`");
    assert_eq!(version_error("1.00.3"), "Invalid buildpack version: `1.00.3`");
    assert_eq!(version_error("1.2.030"), "Invalid buildpack version: `1.2.030`");
}

fn process_type(value: &str) -> ProcessType {
    ProcessType::from_str(value).unwrap()
}

#[test]
fn launch_builder_add_processes() {
    let launch = LaunchBuilder::new()
        .process(ProcessBuilder::new(process_type("web"), "web_command").build())
        .processes(vec![
            ProcessBuilder::new(process_type("another"), "another_command").build(),
            ProcessBuilder::new(process_type("worker"), "worker_command").build(),
        ])
        .build();

    assert_eq!(
        launch.processes,
        vec![
            ProcessBuilder::new(process_type("web"), "web_command").build(),
            ProcessBuilder::new(process_type("another"), "another_command").build(),
            ProcessBuilder::new(process_type("worker"), "worker_command").build(),
        ]
    );
}

fn package(name: &str, dependencies: &[&str]) -> BuildpackPackage {
    BuildpackPackage {
        path: format!("/buildpacks/{name}"),
        buildpack_id: BuildpackId::from_str(name).unwrap(),
        package_descriptor: Some(PackageDescriptor {
            buildpack: PackageDescriptorBuildpackReference::try_from(".").unwrap(),
            dependencies: dependencies
                .iter()
                .map(|d| PackageDescriptorDependency::try_from(format!("libcnb:{d}").as_str()).unwrap())
                .collect(),
            platform: Platform::default(),
        }),
    }
}

fn names(packages: &[&BuildpackPackage]) -> Vec<String> {
    packages.iter().map(|p| p.buildpack_id.to_string()).collect()
}

#[test]
fn test_get_buildpack_package_dependencies_one_level_deep() {
    let graph = create_buildpack_package_graph(vec![
        package("a", &[]),
        package("b", &[]),
        package("c", &["a", "b"]),
    ])
    .unwrap();
    let packages = graph.packages();
    let (a, b, c) = (packages[0], packages[1], packages[2]);

    assert_eq!(names(&get_buildpack_package_dependencies(&graph, &[a]).unwrap()), ["a"]);
    assert_eq!(names(&get_buildpack_package_dependencies(&graph, &[b]).unwrap()), ["b"]);
    assert_eq!(
        names(&get_buildpack_package_dependencies(&graph, &[c]).unwrap()),
        ["a", "b", "c"]
    );
    assert_eq!(
        names(&get_buildpack_package_dependencies(&graph, &[b, c, a]).unwrap()),
        ["b", "a", "c"]
    );
}

#[test]
fn test_get_buildpack_package_dependencies_two_levels_deep() {
    let graph = create_buildpack_package_graph(vec![
        package("a", &[]),
        package("b", &["a"]),
        package("c", &["b"]),
    ])
    .unwrap();
    let packages = graph.packages();
    let (a, b, c) = (packages[0], packages[1], packages[2]);

    assert_eq!(names(&get_buildpack_package_dependencies(&graph, &[a]).unwrap()), ["a"]);
    assert_eq!(
        names(&get_buildpack_package_dependencies(&graph, &[b]).unwrap()),
        ["a", "b"]
    );
    assert_eq!(
        names(&get_buildpack_package_dependencies(&graph, &[c]).unwrap()),
        ["a", "b", "c"]
    );
    assert_eq!(
        names(&get_buildpack_package_dependencies(&graph, &[b, c, a]).unwrap()),
        ["a", "b", "c"]
    );
}

#[test]
fn test_get_buildpack_package_dependencies_with_overlap() {
    let graph = create_buildpack_package_graph(vec![
        package("a", &[]),
        package("b", &[]),
        package("c", &[]),
        package("d", &["a", "b"]),
        package("e", &["b", "c"]),
    ])
    .unwrap();
    let packages = graph.packages();
    let (a, d, e) = (packages[0], packages[3], packages[4]);

    assert_eq!(
        names(&get_buildpack_package_dependencies(&graph, &[d, e, a]).unwrap()),
        ["a", "b", "d", "c", "e"]
    );
    assert_eq!(
        names(&get_buildpack_package_dependencies(&graph, &[e, d, a]).unwrap()),
        ["b", "c", "e", "a", "d"]
    );
}

fn addition(key: &str, value: &str) -> CargoEnvAddition {
    CargoEnvAddition {
        key: String::from(key),
        value: String::from(value),
        separator: String::from(" "),
    }
}

#[test]
fn apply_cargo_env_addition_inserts_into_empty() {
    let mut env = Vec::new();
    apply_cargo_env_additions(&mut env, &vec![addition("RUSTFLAGS", "-C opt-level=3")]);
    assert_eq!(env.len(), 1);
    assert_eq!(env[0].0, "RUSTFLAGS");
    assert_eq!(env[0].1, "-C opt-level=3");
}

#[test]
fn apply_cargo_env_addition_inserts_new_key_alongside_existing() {
    let mut env = vec![(String::from("CC"), String::from("clang"))];
    apply_cargo_env_additions(&mut env, &vec![addition("RUSTFLAGS", "-C lto")]);
    assert_eq!(env.len(), 2);
    assert_eq!(env[0], (String::from("CC"), String::from("clang")));
    assert_eq!(env[1], (String::from("RUSTFLAGS"), String::from("-C lto")));
}

#[test]
fn apply_cargo_env_addition_joins_existing_key() {
    let mut env = vec![(String::from("RUSTFLAGS"), String::from("-C linker=lld"))];
    apply_cargo_env_additions(&mut env, &vec![addition("RUSTFLAGS", "-C instrument-coverage")]);
    assert_eq!(env.len(), 1);
    assert_eq!(env[0].0, "RUSTFLAGS");
    assert_eq!(env[0].1, "-C linker=lld -C instrument-coverage");
}

#[test]
fn from_docker_exec_command_to_command() {
    let docker_exec_command = DockerExecCommand::new("my-container", &["ps"]);
    assert_eq!(docker_exec_command.program(), "docker");
    assert_eq!(docker_exec_command.args(), ["exec", "my-container", "ps"]);
}

#[test]
fn from_docker_logs_command_to_command() {
    let mut docker_logs_command = DockerLogsCommand::new("my-container");

    assert_eq!(docker_logs_command.program(), "docker");
    assert_eq!(docker_logs_command.args(), ["logs", "my-container"]);

    docker_logs_command.follow(true);
    assert_eq!(docker_logs_command.args(), ["logs", "my-container", "--follow"]);
}

#[test]
fn from_docker_port_command_to_command() {
    let docker_port_command = DockerPortCommand::new("my-container", 12345);
    assert_eq!(docker_port_command.program(), "docker");
    assert_eq!(docker_port_command.args(), ["port", "my-container", "12345"]);
}

#[test]
fn from_docker_remove_container_command_to_command() {
    let docker_remove_container_command = DockerRemoveContainerCommand::new("my-container");
    assert_eq!(docker_remove_container_command.program(), "docker");
    assert_eq!(docker_remove_container_command.args(), ["rm", "my-container", "--force"]);
}

#[test]
fn from_docker_remove_image_command_to_command() {
    let docker_remove_image_command = DockerRemoveImageCommand::new("my-image");
    assert_eq!(docker_remove_image_command.program(), "docker");
    assert_eq!(docker_remove_image_command.args(), ["rmi", "my-image", "--force"]);
}

#[test]
fn read_buildpack_package_error_messages() {
    assert_eq!(
        ReadBuildpackPackageError::ReadBuildpackDataError(String::from("no buildpack.toml")).to_string(),
        "Failed to read package descriptor data: no buildpack.toml"
    );
    assert_eq!(
        ReadBuildpackPackageError::ReadPackageDescriptorError(String::from("bad toml")).to_string(),
        "Failed to read package descriptor data: bad toml"
    );
}
