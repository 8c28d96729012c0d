# libcnb

Data types, rules and tooling logic for Cloud Native Buildpacks, verified with Verus.

- `src/` is the verified library. The descriptor types (`api`, `version`, `buildpack_id`,
  `stack_id`, `layer`, `launch`, `exec_d`, `buildpack_toml`, `package_descriptor`,
  `build_plan`, ...) parse and print exactly the values the Buildpack API allows.
  Packaging logic (`dependency_graph`, `buildpack_dependency`, `normalize`, `output`,
  `cargo`, `cross_compile`, `path`) decides which buildpacks to build, in which order and
  where. The integration-test logic (`docker`, `pack`, `container_config`, `test_config`,
  `test_context`, `test_runner`, `assertions`) builds the command lines that tests run and
  checks their outcome.
- `app/` runs what the library decides: it reads and writes files, runs `cargo`, `docker`
  and `pack`, and walks directories.
- `tests/` exercises the library on concrete values.
