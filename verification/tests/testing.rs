use libcnb::assertions::{contains, contains_match, is_empty, not_contains_match};
use libcnb::container_config::ContainerConfig;
use libcnb::docker::{
    DockerExecCommand, DockerLogsCommand, DockerPortCommand, DockerRemoveContainerCommand,
    DockerRemoveImageCommand, DockerRunCommand,
};
use libcnb::log::LogOutput;
use libcnb::pack::{BuildpackReference as PackBuildpackReference, PackBuildCommand, PackSbomDownloadCommand, PullPolicy};
use libcnb::sorted::StringMap;
use libcnb::test_config::{BuildpackReference, PackResult, TestConfig};
use libcnb::test_context::{SbomFiles, SbomType, TemporaryDockerResources, TestContext};
use libcnb::test_runner::{check_pack_result, create_buildpack_references, instrumentation_enabled, normalized_app_dir};
use libcnb::util::{random_docker_identifier, CommandError};
use libcnb::buildpack_id::BuildpackId;
use libcnb::layer::LayerName;
use libcnb::sbom::SbomFormat;

#[test]
fn contains_simple() {
    assert!(contains("Hello World!", "World"));
}

#[test]
fn contains_simple_with_args() {
    assert!(contains("Hello World!", "World"), "World must be greeted!");
}

#[test]
fn contains_multiline() {
    assert!(contains("Hello World!\nFoo\nBar\nBaz", "Bar"));
}

#[test]
fn not_contains_simple() {
    assert!(!contains("Hello World!", "Bahamas"));
}

#[test]
fn not_contains_simple_with_args() {
    assert!(!contains("Hello World!", "Bahamas"), "Bahamas must not be greeted!");
}

#[test]
fn not_contains_multiline() {
    assert!(!contains("Hello World!\nFoo\nBar\nBaz", "Germany"));
}

#[test]
fn empty_simple() {
    assert!(is_empty(""));
}

#[test]
fn empty_simple_with_args() {
    assert!(is_empty(""), "Value must be empty!");
}

#[test]
fn contains_match_simple() {
    assert_eq!(contains_match("Hello World!", "(?i)hello world!"), Some(true));
}

#[test]
fn contains_match_simple_with_args() {
    assert_eq!(contains_match("Hello World!", "(?i)hello world!"), Some(true), "World must be greeted");
}

#[test]
fn contains_match_multiline() {
    assert_eq!(contains_match("Hello World!\nFoo\nBar\nBaz", "^Bar$"), Some(true));
}

#[test]
fn not_contains_match_simple() {
    assert_eq!(not_contains_match("Hello World!", "^World"), Some(true));
}

#[test]
fn not_contains_match_simple_with_args() {
    assert_eq!(not_contains_match("Hello World!", "^World"), Some(true), "World must not be at the start!");
}

#[test]
fn not_contains_match_multiline() {
    assert_eq!(not_contains_match("Hello World!\nFoo\nBar\nBaz", "^Germany$"), Some(true));
}

#[test]
fn checks_that_fail() {
    assert!(!contains("foo", "bar"));
    assert!(contains("foobar", "bar"));
    assert!(contains("abc", ""));
    assert!(!is_empty("foo"));
    assert_eq!(contains_match("foo", "bar"), Some(false));
    assert_eq!(not_contains_match("foobar", "bar"), Some(false));
    assert_eq!(contains_match("Hello World!", "(unclosed group"), None);
    assert_eq!(not_contains_match("Hello World!", "(unclosed group"), None);
}

#[test]
fn from_docker_run_command_to_command() {
    let mut docker_run_command = DockerRunCommand::new("my-image", "my-container");
    assert_eq!(docker_run_command.program(), "docker");
    assert_eq!(docker_run_command.args(), ["run", "--name", "my-container", "my-image"]);
    docker_run_command.command(&["echo", "hello"]);
    docker_run_command.detach(true);
    docker_run_command.entrypoint("/usr/bin/bash");
    docker_run_command.env("FOO", "1");
    docker_run_command.env("BAR", "2");
    docker_run_command.expose_port(55555);
    docker_run_command.expose_port(12345);
    docker_run_command.platform("linux/amd64");
    docker_run_command.remove(true);
    assert_eq!(
        docker_run_command.args(),
        [
            "run", "--name", "my-container", "--detach", "--rm", "--platform", "linux/amd64",
            "--entrypoint", "/usr/bin/bash", "--env", "BAR=2", "--env", "FOO=1", "--publish",
            "127.0.0.1::12345", "--publish", "127.0.0.1::55555", "my-image", "echo", "hello",
        ]
    );
}

#[test]
fn from_other_docker_commands_to_command() {
    assert_eq!(DockerExecCommand::new("my-container", &["ps"]).args(), ["exec", "my-container", "ps"]);
    let mut logs = DockerLogsCommand::new("my-container");
    assert_eq!(logs.args(), ["logs", "my-container"]);
    logs.follow(true);
    assert_eq!(logs.args(), ["logs", "my-container", "--follow"]);
    assert_eq!(DockerPortCommand::new("my-container", 12345).args(), ["port", "my-container", "12345"]);
    assert_eq!(DockerRemoveContainerCommand::new("my-container").args(), ["rm", "my-container", "--force"]);
    assert_eq!(DockerRemoveImageCommand::new("my-image").args(), ["rmi", "my-image", "--force"]);
}

#[test]
fn from_pack_build_command_to_command() {
    let mut command = PackBuildCommand::new("builder:20", "/tmp/foo/bar", "my-image");
    command.buildpack(PackBuildpackReference::Id(String::from("libcnb/buildpack1")));
    command.buildpack(PackBuildpackReference::Path(String::from("/tmp/buildpack2")));
    command.env("ENV_FOO", "FOO_VALUE");
    command.env("ENV_BAR", "WHITESPACE VALUE");
    command.verbose = true;
    assert_eq!(command.program(), "pack");
    assert_eq!(
        command.args(),
        [
            "build", "my-image", "--builder", "builder:20", "--path", "/tmp/foo/bar", "--pull-policy",
            "if-not-present", "--buildpack", "libcnb/buildpack1", "--buildpack", "/tmp/buildpack2",
            "--env", "ENV_BAR=WHITESPACE VALUE", "--env", "ENV_FOO=FOO_VALUE", "--trust-builder",
            "--verbose",
        ]
    );
    command.trust_builder = false;
    command.pull_policy = PullPolicy::Never;
    assert!(!command.args().iter().any(|a| a == "--trust-builder"));
    assert!(command.args().iter().any(|a| a == "never"));
}

#[test]
fn from_pack_sbom_download_command_to_command() {
    let mut command = PackSbomDownloadCommand::new("my-image");
    assert_eq!(command.args(), ["sbom", "download", "my-image"]);
    command.output_dir("/tmp/sboms");
    assert_eq!(command.args(), ["sbom", "download", "my-image", "--output-dir", "/tmp/sboms"]);
}

#[test]
fn string_map_keeps_keys_sorted_and_last_value() {
    let mut map = StringMap::new();
    map.insert(String::from("b"), String::from("1"));
    map.insert(String::from("a"), String::from("2"));
    map.insert(String::from("b"), String::from("3"));
    assert_eq!(map.len(), 2);
    assert_eq!(map.entry(0), ("a", "2"));
    assert_eq!(map.entry(1), ("b", "3"));
    assert_eq!(map.get("b"), Some("3"));
    assert_eq!(map.get("c"), None);
}

#[test]
fn container_config_start_container() {
    let mut config = ContainerConfig::new();
    config.entrypoint("worker").command(&["--flag"]).env("PORT", "12345").expose_port(12345);
    config.envs(&[("DEBUG", "true"), ("PORT", "5678")]);
    let mut test_config: TestConfig<fn(String)> = TestConfig::new("heroku/builder:22", "tests/fixtures/app");
    test_config.target_triple("aarch64-unknown-linux-musl");
    let context = TestContext {
        pack_stdout: String::new(),
        pack_stderr: String::new(),
        config: test_config,
        docker_resources: TemporaryDockerResources::new("libcnbtest_image"),
    };
    let (run, container) = context.start_container(&config, "libcnbtest_container");
    assert_eq!(
        run.args(),
        [
            "run", "--name", "libcnbtest_container", "--detach", "--platform", "linux/arm64",
            "--entrypoint", "worker", "--env", "DEBUG=true", "--env", "PORT=5678", "--publish",
            "127.0.0.1::12345", "libcnbtest_image", "--flag",
        ]
    );
    assert_eq!(container.logs_now().args(), ["logs", "libcnbtest_container"]);
    assert_eq!(container.logs_wait().args(), ["logs", "libcnbtest_container", "--follow"]);
    assert_eq!(container.shell_exec("ps").args(), ["exec", "libcnbtest_container", "launcher", "ps"]);
    assert_eq!(
        context.run_shell_command("echo hi", "libcnbtest_shell").args(),
        [
            "run", "--name", "libcnbtest_shell", "--rm", "--platform", "linux/arm64", "--entrypoint",
            "launcher", "libcnbtest_image", "echo hi",
        ]
    );
    let resources = context.rebuild();
    assert_eq!(resources.build_cache_volume_name, "libcnbtest_image.build-cache");
    assert_eq!(resources.launch_cache_volume_name, "libcnbtest_image.launch-cache");
}

#[test]
fn test_config_defaults_and_builders() {
    let mut config: TestConfig<fn(String)> = TestConfig::new("heroku/builder:22", "app");
    assert_eq!(config.target_triple, "x86_64-unknown-linux-musl");
    assert_eq!(config.buildpacks, vec![BuildpackReference::Crate]);
    assert_eq!(config.expected_pack_result, PackResult::Success);
    config
        .buildpacks(vec![BuildpackReference::Other(String::from("heroku/procfile")), BuildpackReference::Crate])
        .env("A", "1")
        .app_dir("other")
        .expected_pack_result(PackResult::Failure);
    assert_eq!(config.app_dir, "other");
    let references = create_buildpack_references(&config.buildpacks, "/packaged/crate");
    assert!(matches!(&references[0], PackBuildpackReference::Id(id) if id == "heroku/procfile"));
    assert!(matches!(&references[1], PackBuildpackReference::Path(p) if p == "/packaged/crate"));
    assert_eq!(normalized_app_dir("tests/app", "/crate"), "/crate/tests/app");
    assert_eq!(normalized_app_dir("/abs/app", "/crate"), "/abs/app");
}

#[test]
fn pack_result_checks() {
    let ok = || Ok(LogOutput { stdout: String::from("out"), stderr: String::from("err") });
    let failed = || {
        Err(CommandError::NonZeroExitCode {
            exit_code: Some(1),
            program: String::from("pack"),
            stdout: String::from("o"),
            stderr: String::from("e"),
        })
    };
    assert_eq!(check_pack_result(PackResult::Success, ok()).unwrap().stdout, "out");
    assert_eq!(check_pack_result(PackResult::Failure, failed()).unwrap().stderr, "e");
    assert_eq!(
        check_pack_result(PackResult::Failure, ok()).unwrap_err(),
        "The pack build was expected to fail, but did not:\n\n## stderr:\n\nerr\n## stdout:\n\nout\n"
    );
    assert_eq!(
        check_pack_result(PackResult::Success, failed()).unwrap_err(),
        "Error performing pack build:\n\npack command failed with exit code 1!\n\n## stderr:\n\ne\n## stdout:\n\no\n"
    );
}

#[test]
fn command_error_messages() {
    let err = CommandError::NonZeroExitCode {
        exit_code: Some(-3),
        program: String::from("bash"),
        stdout: String::from("some stdout\n"),
        stderr: String::from("some stderr\n"),
    };
    assert_eq!(
        err.to_string(),
        "bash command failed with exit code -3!\n\n## stderr:\n\nsome stderr\n\n## stdout:\n\nsome stdout\n\n"
    );
    let not_found = CommandError::NotFound { program: String::from("nonexistent-program") };
    assert_eq!(
        not_found.to_string(),
        "Couldn't find external program `nonexistent-program`. Ensure it is installed and on PATH."
    );
}

#[test]
fn instrumentation_values() {
    assert!(matches!(instrumentation_enabled(None), Ok(false)));
    assert!(matches!(instrumentation_enabled(Some("TRUE")), Ok(true)));
    assert!(matches!(instrumentation_enabled(Some("1")), Ok(true)));
    assert!(matches!(instrumentation_enabled(Some("")), Ok(false)));
    assert!(matches!(instrumentation_enabled(Some("False")), Ok(false)));
    let err = instrumentation_enabled(Some("yes")).unwrap_err();
    assert_eq!(
        err.to_string(),
        "Invalid value for LIBCNB_INSTRUMENTATION: \"yes\". Expected \"1\", \"true\", \"0\", or \"false\"."
    );
}

#[test]
fn random_identifiers_have_the_expected_shape() {
    let name = random_docker_identifier();
    assert_eq!(name.len(), 23);
    assert!(name.starts_with("libcnbtest_"));
    assert!(name[11..].chars().all(|c| c.is_ascii_lowercase()));
}

#[test]
fn sbom_paths() {
    let files = SbomFiles { sbom_files_directory: String::from("/tmp/sbom") };
    let id = BuildpackId::from_str("heroku/jvm").unwrap();
    assert_eq!(
        files.path_for(&id, &SbomType::Launch, SbomFormat::SyftJson),
        "/tmp/sbom/layers/sbom/launch/heroku_jvm/sbom.syft.json"
    );
    let layer = LayerName::from_str("openjdk").unwrap();
    assert_eq!(
        files.path_for(&id, &SbomType::Layer(layer), SbomFormat::CycloneDxJson),
        "/tmp/sbom/layers/sbom/launch/heroku_jvm/openjdk/sbom.cdx.json"
    );
}
