use libcnb::cargo::{has_target_named, CargoPackage, CargoTarget};
use libcnb::container_config::ContainerConfig;
use libcnb::cross_compile::{cross_compile_assistance, required_compiler, CrossCompileAssistance};
use libcnb::docker::{DockerRemoveVolumeCommand, DockerRunCommand};
use libcnb::test_config::TestConfig;
use libcnb::test_context::{TemporaryDockerResources, TestContext};
use libcnb::test_runner::{instrumentation_enabled, volume_args, VolumeMount};
use libcnb::util::{command_outcome, spawn_error, CommandError};
use libcnb::version::BuildpackVersion;

fn ports(config: &ContainerConfig) -> Vec<u16> {
    config.exposed_ports.iter().copied().collect()
}

#[test]
fn version_parts_have_no_sign() {
    for value in ["0.0.+0", "+1.2.3", "1.+02.3", "1.2.+3"] {
        assert_eq!(
            BuildpackVersion::try_from(String::from(value)).unwrap_err().to_string(),
            format!("Invalid buildpack version: `{value}`")
        );
    }
}

#[test]
fn accepted_versions_print_as_written() {
    for value in ["0.0.0", "1.3.4", "1234.5678.9876", "18446744073709551615.0.10"] {
        assert_eq!(BuildpackVersion::try_from(String::from(value)).unwrap().to_string(), value);
    }
}

#[test]
fn required_compiler_per_toolchain() {
    assert_eq!(
        required_compiler("aarch64-unknown-linux-musl", "linux", "x86_64").as_deref(),
        Some("aarch64-linux-gnu-gcc")
    );
    assert_eq!(
        required_compiler("x86_64-unknown-linux-musl", "macos", "aarch64").as_deref(),
        Some("x86_64-unknown-linux-musl-gcc")
    );
    assert_eq!(
        required_compiler("x86_64-unknown-linux-musl", "linux", "x86_64").as_deref(),
        Some("musl-gcc")
    );
    assert_eq!(required_compiler("wasm32-unknown-unknown", "linux", "x86_64"), None);
}

#[test]
fn unknown_toolchain_gets_no_assistance() {
    assert!(matches!(
        cross_compile_assistance("wasm32-unknown-unknown", "linux", "x86_64"),
        CrossCompileAssistance::NoAssistance
    ));
}

#[test]
fn command_outcomes() {
    match command_outcome("docker", true, Some(0), String::from("out"), String::from("err")) {
        Ok(output) => {
            assert_eq!(output.stdout, "out");
            assert_eq!(output.stderr, "err");
        }
        Err(_) => panic!("expected success"),
    }
    match command_outcome("docker", false, Some(3), String::from("out"), String::from("err")) {
        Err(CommandError::NonZeroExitCode { exit_code, program, stdout, stderr }) => {
            assert_eq!(exit_code, Some(3));
            assert_eq!(program, "docker");
            assert_eq!(stdout, "out");
            assert_eq!(stderr, "err");
        }
        _ => panic!("expected a non-zero exit code"),
    }
    assert!(matches!(
        spawn_error("pack", true, String::from("not found")),
        CommandError::NotFound { program } if program == "pack"
    ));
    assert!(matches!(
        spawn_error("pack", false, String::from("denied")),
        CommandError::Io { message, program } if message == "denied" && program == "pack"
    ));
}

#[test]
fn volume_arguments() {
    let volume = VolumeMount {
        source: String::from("/work/target/coverage/profraw"),
        target: String::from("/tmp/llvm-cov"),
        options: Some(String::from("rw")),
    };
    assert_eq!(volume_args(&volume), ["--volume", "/work/target/coverage/profraw:/tmp/llvm-cov:rw"]);
    let plain = VolumeMount { source: String::from("/a"), target: String::from("/b"), options: None };
    assert_eq!(volume_args(&plain), ["--volume", "/a:/b"]);
}

#[test]
fn remove_volume_command() {
    let command = DockerRemoveVolumeCommand::new(&["img.build-cache", "img.launch-cache"]);
    assert_eq!(command.program(), "docker");
    assert_eq!(command.args(), ["volume", "rm", "--force", "img.build-cache", "img.launch-cache"]);
}

#[test]
fn exposing_a_port_twice_is_exposing_it_once() {
    let mut config = ContainerConfig::new();
    config.expose_port(8080).expose_port(80);
    assert_eq!(ports(&config), [80, 8080]);
    config.expose_port(8080);
    assert_eq!(ports(&config), [80, 8080]);
}

#[test]
fn invalid_instrumentation_value_is_debug_quoted() {
    let err = instrumentation_enabled(Some("ye\"s\\")).unwrap_err();
    assert_eq!(
        err.to_string(),
        "Invalid value for LIBCNB_INSTRUMENTATION: \"ye\\\"s\\\\\". Expected \"1\", \"true\", \"0\", or \"false\"."
    );
}

#[test]
fn docker_run_mounts_volumes() {
    let mut run = DockerRunCommand::new("my-image", "my-container");
    run.volume("/shared/cache", "/workspace/cache").env("A", "1");
    assert_eq!(
        run.args(),
        [
            "run", "--name", "my-container", "--env", "A=1", "--volume", "/shared/cache:/workspace/cache",
            "my-image",
        ]
    );
}

#[test]
fn started_container_keeps_the_configuration() {
    let mut config = ContainerConfig::new();
    config
        .entrypoint("worker")
        .command(&["--flag"])
        .env("PORT", "12345")
        .expose_port(12345)
        .volume("/shared/cache", "/workspace/cache");
    let context = TestContext {
        pack_stdout: String::new(),
        pack_stderr: String::new(),
        config: TestConfig::<fn(String)>::new("heroku/builder:22", "tests/fixtures/app"),
        docker_resources: TemporaryDockerResources::new("libcnbtest_image"),
    };
    let (run, container) = context.start_container(&config, "libcnbtest_container");
    assert_eq!(
        run.args(),
        [
            "run", "--name", "libcnbtest_container", "--detach", "--platform", "linux/amd64",
            "--entrypoint", "worker", "--env", "PORT=12345", "--volume",
            "/shared/cache:/workspace/cache", "--publish", "127.0.0.1::12345", "libcnbtest_image",
            "--flag",
        ]
    );
    assert_eq!(container.config.entrypoint.as_deref(), Some("worker"));
    assert_eq!(container.config.command, Some(vec![String::from("--flag")]));
    assert_eq!(ports(&container.config), [12345]);
    assert_eq!(container.config.volumes.get("/shared/cache"), Some("/workspace/cache"));
}

#[test]
fn target_lookup_by_name() {
    let package = CargoPackage {
        name: String::from("buildpack"),
        targets: vec![
            CargoTarget { name: String::from("buildpack"), kind: vec![String::from("bin")] },
            CargoTarget { name: String::from("helper"), kind: vec![String::from("lib")] },
        ],
    };
    assert!(has_target_named(&package, "buildpack"));
    assert!(has_target_named(&package, "helper"));
    assert!(!has_target_named(&package, "other"));
}
