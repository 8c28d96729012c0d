use libcnb::api::BuildpackApi;
use libcnb::buildpack_id::BuildpackId;
use libcnb::buildpack_toml::{join_strings, BuildpackTomlError, Stack};
use libcnb::exec_d::{ExecDProgramOutputKey, ExecDProgramOutputKeyError};
use libcnb::launch::{Process, ProcessBuilder, ProcessType, ProcessTypeError};
use libcnb::layer::{LayerName, LayerNameError};
use libcnb::stack_id::StackId;
use libcnb::version::BuildpackVersion;

#[test]
fn buildpack_buildpack_api_display() {
    assert_eq!(BuildpackApi { major: 1, minor: 0 }.to_string(), "1.0");
    assert_eq!(BuildpackApi { major: 1, minor: 2 }.to_string(), "1.2");
    assert_eq!(BuildpackApi { major: 0, minor: 5 }.to_string(), "0.5");
}

#[test]
fn api_buildpack_api_display() {
    assert_eq!(BuildpackApi { major: 1, minor: 0 }.to_string(), "1.0");
    assert_eq!(BuildpackApi { major: 1, minor: 2 }.to_string(), "1.2");
    assert_eq!(BuildpackApi { major: 0, minor: 10 }.to_string(), "0.10");
}

#[test]
fn buildpack_version_display() {
    assert_eq!(
        BuildpackVersion { major: 0, minor: 1, patch: 2 }.to_string(),
        "0.1.2"
    );
    assert_eq!(
        BuildpackVersion { major: 2000, minor: 10, patch: 20 }.to_string(),
        "2000.10.20"
    );
}

#[test]
fn exec_d_program_output_key_validation_valid() {
    assert!(ExecDProgramOutputKey::from_str("FOO").is_ok());
    assert!(ExecDProgramOutputKey::from_str("foo").is_ok());
    assert!(ExecDProgramOutputKey::from_str("FOO_BAR").is_ok());
    assert!(ExecDProgramOutputKey::from_str("foo_bar").is_ok());
    assert!(ExecDProgramOutputKey::from_str("123").is_ok());
    assert!(ExecDProgramOutputKey::from_str("FOO-bar").is_ok());
    assert!(ExecDProgramOutputKey::from_str("foo-BAR").is_ok());
}

#[test]
fn exec_d_program_output_key_validation_invalid() {
    assert_eq!(
        ExecDProgramOutputKey::from_str("FOO BAR"),
        Err(ExecDProgramOutputKeyError::InvalidValue(String::from("FOO BAR")))
    );
    assert_eq!(
        ExecDProgramOutputKey::from_str("FÜCHSCHEN"),
        Err(ExecDProgramOutputKeyError::InvalidValue(String::from("FÜCHSCHEN")))
    );
    assert_eq!(
        ExecDProgramOutputKey::from_str("foo!"),
        Err(ExecDProgramOutputKeyError::InvalidValue(String::from("foo!")))
    );
    assert_eq!(
        ExecDProgramOutputKey::from_str("🦊"),
        Err(ExecDProgramOutputKeyError::InvalidValue(String::from("🦊")))
    );
}

#[test]
fn process_type_validation_valid() {
    assert!(ProcessType::from_str("web").is_ok());
    assert!(ProcessType::from_str("Abc123._-").is_ok());
}

#[test]
fn process_type_validation_invalid() {
    assert_eq!(
        ProcessType::from_str("worker/foo"),
        Err(ProcessTypeError::InvalidValue(String::from("worker/foo")))
    );
    assert_eq!(
        ProcessType::from_str("worker:foo"),
        Err(ProcessTypeError::InvalidValue(String::from("worker:foo")))
    );
    assert_eq!(
        ProcessType::from_str("worker foo"),
        Err(ProcessTypeError::InvalidValue(String::from("worker foo")))
    );
    assert_eq!(
        ProcessType::from_str(""),
        Err(ProcessTypeError::InvalidValue(String::new()))
    );
}

fn web() -> ProcessType {
    ProcessType::from_str("web").unwrap()
}

#[test]
fn process_builder() {
    let mut process_builder = ProcessBuilder::new(web(), "java");
    assert_eq!(
        process_builder.build(),
        Process {
            process_type: web(),
            command: String::from("java"),
            args: vec![],
            direct: false,
            default: false
        }
    );
    process_builder.default(true);
    assert_eq!(
        process_builder.build(),
        Process {
            process_type: web(),
            command: String::from("java"),
            args: vec![],
            direct: false,
            default: true
        }
    );
    process_builder.direct(true);
    assert_eq!(
        process_builder.build(),
        Process {
            process_type: web(),
            command: String::from("java"),
            args: vec![],
            direct: true,
            default: true
        }
    );
}

#[test]
fn process_builder_args() {
    assert_eq!(
        ProcessBuilder::new(web(), "java")
            .arg("foo")
            .args(vec!["baz", "eggs"])
            .arg("bar")
            .build(),
        Process {
            process_type: web(),
            command: String::from("java"),
            args: vec![
                String::from("foo"),
                String::from("baz"),
                String::from("eggs"),
                String::from("bar"),
            ],
            direct: false,
            default: false
        }
    );
}

#[test]
fn layer_name_validation_valid() {
    assert!(LayerName::from_str("gems").is_ok());
    assert!(LayerName::from_str("Abc 123.-_!").is_ok());
    assert!(LayerName::from_str("build-foo").is_ok());
    assert!(LayerName::from_str("foo-build").is_ok());
}

#[test]
fn layer_name_validation_invalid() {
    assert_eq!(
        LayerName::from_str("build"),
        Err(LayerNameError::InvalidValue(String::from("build")))
    );
    assert_eq!(
        LayerName::from_str("launch"),
        Err(LayerNameError::InvalidValue(String::from("launch")))
    );
    assert_eq!(
        LayerName::from_str("store"),
        Err(LayerNameError::InvalidValue(String::from("store")))
    );
    assert_eq!(
        LayerName::from_str(""),
        Err(LayerNameError::InvalidValue(String::new()))
    );
}

#[test]
fn buildpack_api_parse_and_text_roundtrip() {
    let api = BuildpackApi::try_from("0.10").unwrap();
    assert_eq!(api, BuildpackApi { major: 0, minor: 10 });
    assert_eq!(BuildpackApi::try_from(api.to_string().as_str()).unwrap(), api);
    assert_eq!(BuildpackApi::try_from("1").unwrap(), BuildpackApi { major: 1, minor: 0 });
    assert!(BuildpackApi::try_from("1.2.3").is_err());
    assert!(BuildpackApi::try_from("").is_err());
}

#[test]
fn buildpack_version_parse_and_text_roundtrip() {
    let v = BuildpackVersion::try_from(String::from("2000.10.20")).unwrap();
    assert_eq!(v, BuildpackVersion { major: 2000, minor: 10, patch: 20 });
    assert_eq!(BuildpackVersion::try_from(v.to_string()).unwrap(), v);
    assert!(BuildpackVersion::try_from(String::from("1.2.030")).is_err());
    assert!(BuildpackVersion::try_from(String::from("1.2")).is_err());
}

#[test]
fn buildpack_id_rejects_reserved_names() {
    assert!(BuildpackId::from_str("heroku/jvm").is_ok());
    assert!(BuildpackId::from_str("app").is_err());
    assert!(BuildpackId::from_str("config").is_err());
    assert!(BuildpackId::from_str("foo bar").is_err());
}

#[test]
fn star_stack_cannot_have_mixins() {
    let star = StackId::from_str("*").unwrap();
    match Stack::try_from(star, vec![String::from("yj"), String::from("yq")]) {
        Err(BuildpackTomlError::InvalidStarStack(mixins)) => assert_eq!(mixins, "yj, yq"),
        other => panic!("unexpected result: {:?}", other),
    }
    let focal = StackId::from_str("io.buildpacks.stacks.focal").unwrap();
    let stack = Stack::try_from(focal, vec![String::from("build:jq")]).unwrap();
    assert_eq!(stack.mixins, vec![String::from("build:jq")]);
    assert_eq!(join_strings(&vec![String::from("A"), String::from("B")], ", "), "A, B");
}
