use libcnb::buildpack_dependency::{
    get_local_package_descriptor_dependencies, rewrite_package_descriptor_local_dependencies,
    rewrite_package_descriptor_relative_path_dependencies_to_absolute,
    RewritePackageDescriptorLocalDependenciesError,
};
use libcnb::buildpack_dependency_graph::BuildpackDependencyGraphNode;
use libcnb::buildpack_id::BuildpackId;
use libcnb::cargo::{
    cargo_build_arguments, determine_buildpack_cargo_target_name, CargoPackage, CargoTarget,
    DetermineBuildpackCargoTargetNameError,
};
use libcnb::cross_compile::{assistance_for, CrossCompileAssistance};
use libcnb::dependency_graph::{
    create_dependency_graph, get_dependencies, CreateDependencyGraphError, GetDependenciesError,
};
use libcnb::normalize::{replace_libcnb_uris, ReplaceLibcnbUriError};
use libcnb::output::{create_packaged_buildpack_dir_resolver, default_buildpack_directory_name, CargoProfile};
use libcnb::package_descriptor::{
    PackageDescriptor, PackageDescriptorBuildpackReference, PackageDescriptorDependency, Platform,
};
use libcnb::path::{absolutize_path, join_path, normalize_path};
use libcnb::target_platform::{default_arch, TargetArch, TargetOs, TargetPlatform};

fn id(s: &str) -> BuildpackId {
    BuildpackId::from_str(s).unwrap()
}

#[test]
fn test_get_buildpack_target_dir() {
    let buildpack_id = id("some-org/with-buildpack");
    let package_dir = "/package";
    let target_triple = "x86_64-unknown-linux-musl";
    let dev = create_packaged_buildpack_dir_resolver(package_dir, CargoProfile::Dev, target_triple);
    let release = create_packaged_buildpack_dir_resolver(package_dir, CargoProfile::Release, target_triple);
    assert_eq!(
        dev.resolve(&buildpack_id),
        "/package/x86_64-unknown-linux-musl/debug/some-org_with-buildpack"
    );
    assert_eq!(
        release.resolve(&buildpack_id),
        "/package/x86_64-unknown-linux-musl/release/some-org_with-buildpack"
    );
}

#[test]
fn test_normalize_path() {
    assert_eq!(normalize_path("/foo/bar/baz"), "/foo/bar/baz");
    assert_eq!(normalize_path("/foo/bar/../baz"), "/foo/baz");
    assert_eq!(normalize_path("/foo/bar/./././././baz"), "/foo/bar/baz");
    assert_eq!(normalize_path("/foo/bar/../../23/42/../.././hello.txt"), "/hello.txt");
    assert_eq!(normalize_path("foo/bar/../../23/42/../.././hello.txt"), "hello.txt");
}

#[test]
fn normalize_path_is_idempotent_on_examples() {
    for p in ["/a/./b/../c//d/", "../x/../y", "a/b/c/../../..", "/", ""] {
        let once = normalize_path(p);
        assert_eq!(normalize_path(&once), once);
    }
}

#[test]
fn absolutize_path_joins_relative_paths() {
    assert_eq!(absolutize_path("../relative/path", "/test/source/path"), "/test/source/relative/path");
    assert_eq!(absolutize_path("/absolute/path", "/test/source/path"), "/absolute/path");
    assert_eq!(join_path("/a", "b"), "/a/b");
    assert_eq!(join_path("/a/", "b"), "/a/b");
    assert_eq!(join_path("/a", "/b"), "/b");
    assert_eq!(join_path("/a", ""), "/a/");
}

#[test]
fn default_buildpack_directory_name_replaces_slashes() {
    assert_eq!(default_buildpack_directory_name(&id("heroku/java/x")), "heroku_java_x");
    assert_eq!(default_buildpack_directory_name(&id("plain")), "plain");
}

fn node(name: &str, deps: &[&str]) -> BuildpackDependencyGraphNode {
    BuildpackDependencyGraphNode {
        buildpack_id: id(name),
        path: format!("/buildpacks/{name}"),
        dependencies: deps.iter().map(|d| id(d)).collect(),
    }
}

fn ids(nodes: &[&BuildpackDependencyGraphNode]) -> Vec<String> {
    nodes.iter().map(|n| n.buildpack_id.to_string()).collect()
}

#[test]
fn test_get_dependencies_one_level_deep() {
    let graph = create_dependency_graph(vec![node("a", &[]), node("b", &[]), node("c", &["a", "b"])]).unwrap();
    let nodes = graph.nodes();
    let (a, b, c) = (&nodes[0], &nodes[1], &nodes[2]);
    assert_eq!(ids(&get_dependencies(&graph, &[a]).unwrap()), ["a"]);
    assert_eq!(ids(&get_dependencies(&graph, &[b]).unwrap()), ["b"]);
    assert_eq!(ids(&get_dependencies(&graph, &[c]).unwrap()), ["a", "b", "c"]);
    assert_eq!(ids(&get_dependencies(&graph, &[b, c, a]).unwrap()), ["b", "a", "c"]);
}

#[test]
fn test_get_dependencies_two_levels_deep() {
    let graph = create_dependency_graph(vec![node("a", &[]), node("b", &["a"]), node("c", &["b"])]).unwrap();
    let nodes = graph.nodes();
    let (a, b, c) = (&nodes[0], &nodes[1], &nodes[2]);
    assert_eq!(ids(&get_dependencies(&graph, &[a]).unwrap()), ["a"]);
    assert_eq!(ids(&get_dependencies(&graph, &[b]).unwrap()), ["a", "b"]);
    assert_eq!(ids(&get_dependencies(&graph, &[c]).unwrap()), ["a", "b", "c"]);
    assert_eq!(ids(&get_dependencies(&graph, &[b, c, a]).unwrap()), ["a", "b", "c"]);
}

#[test]
fn test_get_dependencies_with_overlap() {
    let graph = create_dependency_graph(vec![
        node("a", &[]),
        node("b", &[]),
        node("c", &[]),
        node("d", &["a", "b"]),
        node("e", &["b", "c"]),
    ])
    .unwrap();
    let nodes = graph.nodes();
    let (a, d, e) = (&nodes[0], &nodes[3], &nodes[4]);
    assert_eq!(ids(&get_dependencies(&graph, &[d, e, a]).unwrap()), ["a", "b", "d", "c", "e"]);
    assert_eq!(ids(&get_dependencies(&graph, &[e, d, a]).unwrap()), ["b", "c", "e", "a", "d"]);
}

#[test]
fn create_dependency_graph_reports_missing_dependency() {
    match create_dependency_graph(vec![node("a", &["x"]), node("b", &["y"])]) {
        Err(CreateDependencyGraphError::MissingDependency(missing)) => assert_eq!(missing.to_string(), "x"),
        _ => panic!("expected a missing dependency"),
    }
}

#[test]
fn get_dependencies_reports_unknown_root() {
    let graph = create_dependency_graph(vec![node("a", &[])]).unwrap();
    let stranger = node("z", &[]);
    match get_dependencies(&graph, &[&stranger]) {
        Err(GetDependenciesError::UnknownRootNode(unknown)) => assert_eq!(unknown.to_string(), "z"),
        _ => panic!("expected an unknown root"),
    }
}

#[test]
fn dependencies_come_before_dependents_in_a_diamond() {
    let graph = create_dependency_graph(vec![
        node("top", &["left", "right"]),
        node("left", &["base"]),
        node("right", &["base"]),
        node("base", &[]),
    ])
    .unwrap();
    let top = &graph.nodes()[0];
    let order = ids(&get_dependencies(&graph, &[top]).unwrap());
    assert_eq!(order.len(), 4);
    let pos = |n: &str| order.iter().position(|x| x == n).unwrap();
    assert!(pos("base") < pos("left"));
    assert!(pos("base") < pos("right"));
    assert!(pos("left") < pos("top"));
    assert!(pos("right") < pos("top"));
}

fn dependency(uri: &str) -> PackageDescriptorDependency {
    PackageDescriptorDependency::try_from(uri).unwrap()
}

fn create_package_descriptor() -> PackageDescriptor {
    PackageDescriptor {
        buildpack: PackageDescriptorBuildpackReference::try_from(".").unwrap(),
        dependencies: vec![
            dependency("libcnb:buildpack-id"),
            dependency("../relative/path"),
            dependency("/absolute/path"),
            dependency("docker://docker.io/heroku/example:1.2.3"),
        ],
        platform: Platform::default(),
    }
}

#[test]
fn test_rewrite_package_descriptor_relative_path_dependencies() {
    let package_descriptor = create_package_descriptor();
    let new_package_descriptor =
        rewrite_package_descriptor_relative_path_dependencies_to_absolute(&package_descriptor, "/test/source/path")
            .unwrap();
    assert_eq!(
        new_package_descriptor.dependencies[1].uri.to_string(),
        "/test/source/path/../relative/path"
    );
    assert_eq!(new_package_descriptor.dependencies[0].uri.to_string(), "libcnb:buildpack-id");
    assert_eq!(new_package_descriptor.dependencies[2].uri.to_string(), "/absolute/path");
}

#[test]
fn test_rewrite_package_descriptor_local_dependencies() {
    let package_descriptor = create_package_descriptor();
    let resolver = create_packaged_buildpack_dir_resolver("/path/to/target", CargoProfile::Dev, "arch");
    let new_package_descriptor =
        rewrite_package_descriptor_local_dependencies(&package_descriptor, &resolver).unwrap();
    assert_eq!(
        new_package_descriptor.dependencies[0].uri.to_string(),
        "/path/to/target/arch/debug/buildpack-id"
    );
    assert_eq!(
        new_package_descriptor.dependencies[3].uri.to_string(),
        "docker://docker.io/heroku/example:1.2.3"
    );
}

#[test]
fn test_get_local_package_descriptor_dependencies() {
    let package_descriptor = create_package_descriptor();
    let local = get_local_package_descriptor_dependencies(&package_descriptor).unwrap();
    assert_eq!(local.len(), 1);
    assert_eq!(local[0].to_string(), "buildpack-id");
}

#[test]
fn invalid_local_dependency_id_is_reported() {
    let mut package_descriptor = create_package_descriptor();
    package_descriptor.dependencies.push(dependency("libcnb:app"));
    let resolver = create_packaged_buildpack_dir_resolver("/t", CargoProfile::Release, "arch");
    match rewrite_package_descriptor_local_dependencies(&package_descriptor, &resolver) {
        Err(RewritePackageDescriptorLocalDependenciesError::InvalidBuildpackIdReference(e)) => {
            assert_eq!(e.to_string(), "Invalid Value: app")
        }
        _ => panic!("expected an invalid buildpack id"),
    }
}

#[test]
fn replace_libcnb_uris_uses_given_paths() {
    let package_descriptor = create_package_descriptor();
    let paths = vec![(id("buildpack-id"), String::from("/out/buildpack-id"))];
    let replaced = replace_libcnb_uris(&package_descriptor, &paths).unwrap();
    assert_eq!(replaced.dependencies[0].uri.to_string(), "/out/buildpack-id");
    assert_eq!(replaced.dependencies[1].uri.to_string(), "../relative/path");
    match replace_libcnb_uris(&package_descriptor, &Vec::new()) {
        Err(ReplaceLibcnbUriError::MissingBuildpackPath(missing)) => assert_eq!(missing.to_string(), "buildpack-id"),
        _ => panic!("expected a missing path"),
    }
}

fn target(name: &str, kind: &str) -> CargoTarget {
    CargoTarget { name: name.to_string(), kind: vec![kind.to_string()] }
}

#[test]
fn buildpack_cargo_target_name() {
    let single = CargoPackage { name: String::from("pkg"), targets: vec![target("only", "bin"), target("pkg", "lib")] };
    assert_eq!(determine_buildpack_cargo_target_name(Some(&single)).unwrap(), "only");
    let named = CargoPackage { name: String::from("pkg"), targets: vec![target("other", "bin"), target("pkg", "bin")] };
    assert_eq!(determine_buildpack_cargo_target_name(Some(&named)).unwrap(), "pkg");
    let ambiguous = CargoPackage { name: String::from("pkg"), targets: vec![target("x", "bin"), target("y", "bin")] };
    assert_eq!(
        determine_buildpack_cargo_target_name(Some(&ambiguous)).unwrap_err(),
        DetermineBuildpackCargoTargetNameError::AmbiguousBinTargets
    );
    let none = CargoPackage { name: String::from("pkg"), targets: vec![target("pkg", "lib")] };
    assert_eq!(
        determine_buildpack_cargo_target_name(Some(&none)).unwrap_err(),
        DetermineBuildpackCargoTargetNameError::NoBinTargets
    );
    assert_eq!(
        determine_buildpack_cargo_target_name(None).unwrap_err(),
        DetermineBuildpackCargoTargetNameError::NoRootPackage
    );
    assert_eq!(
        cargo_build_arguments(CargoProfile::Release, "x86_64-unknown-linux-musl"),
        ["build", "--target", "x86_64-unknown-linux-musl", "--release"]
    );
}

#[test]
fn cross_compile_configuration_for_macos() {
    match assistance_for("aarch64-unknown-linux-musl", "macos", "x86_64", true) {
        CrossCompileAssistance::Configuration { cargo_env } => assert_eq!(
            cargo_env,
            vec![
                (
                    String::from("CARGO_TARGET_AARCH64_UNKNOWN_LINUX_MUSL_LINKER"),
                    String::from("aarch64-unknown-linux-musl-gcc")
                ),
                (String::from("CC_aarch64_unknown_linux_musl"), String::from("aarch64-unknown-linux-musl-gcc")),
                (String::from("CXX_aarch64_unknown_linux_musl"), String::from("aarch64-unknown-linux-musl-g++")),
                (String::from("AR_aarch64_unknown_linux_musl"), String::from("aarch64-unknown-linux-musl-ar")),
            ]
        ),
        other => panic!("unexpected assistance: {:?}", other),
    }
    match assistance_for("x86_64-unknown-linux-musl", "linux", "x86_64", false) {
        CrossCompileAssistance::HelpText(text) => assert_eq!(
            text,
            "For cross-compilation from x86_64 linux to x86_64-unknown-linux-musl,\na C compiler and linker for the target platform must be installed:\n\nTo install musl-tools on Ubuntu:\nsudo apt-get install musl-tools\n\nYou will also need to install the Rust target:\nrustup target add x86_64-unknown-linux-musl\n"
        ),
        other => panic!("unexpected assistance: {:?}", other),
    }
    assert!(matches!(
        assistance_for("riscv64gc-unknown-linux-gnu", "linux", "x86_64", true),
        CrossCompileAssistance::NoAssistance
    ));
}

#[test]
fn target_platform_text() {
    assert_eq!(TargetPlatform::new(TargetOs::Linux, TargetArch::Amd64).to_string(), "linux/amd64");
    assert_eq!(TargetPlatform::new(TargetOs::Linux, TargetArch::Arm64).to_string(), "linux/arm64");
    assert_eq!(default_arch("aarch64"), Some(TargetArch::Arm64));
    assert_eq!(default_arch("x86_64"), Some(TargetArch::Amd64));
    assert_eq!(default_arch("mips"), None);
}
