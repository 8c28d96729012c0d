//! Data types and rules of Cloud Native Buildpacks, together with the packaging and
//! testing helpers built on them.
pub mod api;
pub mod buildpack_id;
pub mod buildpack_toml;
pub mod stack_id;
pub mod text;
pub mod version;
pub mod exec_d;
pub mod launch;
pub mod layer;
pub mod path;
pub mod graph;
pub mod dependency_graph;
pub mod uri;
pub mod package_descriptor;
pub mod output;
pub mod buildpack_dependency;
pub mod normalize;
pub mod buildpack_dependency_graph;
pub mod buildpack_package;
pub mod sorted;
pub mod ports;
pub mod args;
pub mod docker;
pub mod pack;
pub mod container_config;
pub mod log;
pub mod util;
pub mod test_config;
pub mod sbom;
pub mod container_context;
pub mod test_context;
pub mod test_runner;
pub mod cross_compile;
pub mod build_plan;
pub mod bom;
pub mod buildpack_plan;
pub mod store;
pub mod target_platform;
pub mod layer_content_metadata;
pub mod cargo;
pub mod assertions;
pub mod buildpackage;
pub mod workspace;
