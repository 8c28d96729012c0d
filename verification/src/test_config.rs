//! The configuration of an integration test.
use crate::container_config::updated_lookup;
use crate::sorted::{lookup, StringMap};
use vstd::prelude::*;

verus! {

/// A buildpack that a test builds with.
#[derive(Debug, Clone, PartialEq, Eq)]
pub enum BuildpackReference {
    /// The buildpack of the crate under test.
    Crate,
    /// Another buildpack, by ID, local directory or tarball.
    Other(String),
}

/// The outcome of `pack build` that a test expects.
#[derive(Debug, Clone, Copy, PartialEq, Eq, Structural)]
pub enum PackResult {
    Success,
    Failure,
}

/// The configuration of an integration test. `P` is the type of the function that
/// prepares the copy of the app directory, if one is set.
#[derive(Clone)]
pub struct TestConfig<P> {
    pub app_dir: String,
    pub target_triple: String,
    pub builder_name: String,
    pub buildpacks: Vec<BuildpackReference>,
    pub env: StringMap,
    pub app_dir_preprocessor: Option<P>,
    pub expected_pack_result: PackResult,
}

impl<P> TestConfig<P> {
    /// A configuration that builds the app in `app_dir` with `builder_name`: for the target
    /// `x86_64-unknown-linux-musl`, with the buildpack of the crate only, no environment, no
    /// preprocessor, expecting success.
    pub fn new(builder_name: &str, app_dir: &str) -> (r: Self)
        ensures
            r.app_dir@ == app_dir@,
            r.target_triple@ == "x86_64-unknown-linux-musl"@,
            r.builder_name@ == builder_name@,
            r.buildpacks@ == seq![BuildpackReference::Crate],
            r.env@.len() == 0,
            r.app_dir_preprocessor is None,
            r.expected_pack_result == PackResult::Success,
    {
        let mut buildpacks: Vec<BuildpackReference> = Vec::new();
        buildpacks.push(BuildpackReference::Crate);
        TestConfig {
            app_dir: app_dir.to_owned(),
            target_triple: "x86_64-unknown-linux-musl".to_owned(),
            builder_name: builder_name.to_owned(),
            buildpacks,
            env: StringMap::new(),
            app_dir_preprocessor: None,
            expected_pack_result: PackResult::Success,
        }
    }

    /// Sets the buildpacks, in order.
    pub fn buildpacks(&mut self, buildpacks: Vec<BuildpackReference>) -> (r: &mut Self)
        ensures
            *final(self) == *final(r),
            *r == (TestConfig { buildpacks, ..*old(self) }),
    {
        self.buildpacks = buildpacks;
        self
    }

    /// Sets the target triple the buildpack is compiled for.
    pub fn target_triple(&mut self, target_triple: &str) -> (r: &mut Self)
        ensures
            *final(self) == *final(r),
            r.target_triple@ == target_triple@,
            r.app_dir == old(self).app_dir,
            r.builder_name == old(self).builder_name,
            r.buildpacks == old(self).buildpacks,
            r.env@ == old(self).env@,
            r.app_dir_preprocessor == old(self).app_dir_preprocessor,
            r.expected_pack_result == old(self).expected_pack_result,
    {
        self.target_triple = target_triple.to_owned();
        self
    }

    /// Inserts or updates an environment variable of the build.
    pub fn env(&mut self, k: &str, v: &str) -> (r: &mut Self)
        ensures
            *final(self) == *final(r),
            forall|key: Seq<char>|
                lookup(r.env@, key) == if key == k@ {
                    Some(v@)
                } else {
                    lookup(old(self).env@, key)
                },
            r.app_dir == old(self).app_dir,
            r.target_triple == old(self).target_triple,
            r.builder_name == old(self).builder_name,
            r.buildpacks == old(self).buildpacks,
            r.app_dir_preprocessor == old(self).app_dir_preprocessor,
            r.expected_pack_result == old(self).expected_pack_result,
    {
        self.env.insert(k.to_owned(), v.to_owned());
        self
    }

    /// Inserts or updates several environment variables of the build, in order: where a key
    /// comes twice, the later value stays.
    pub fn envs(&mut self, envs: &[(&str, &str)]) -> (r: &mut Self)
        ensures
            *final(self) == *final(r),
            forall|k: Seq<char>| lookup(r.env@, k) == updated_lookup(old(self).env@, envs@, k),
            r.app_dir == old(self).app_dir,
            r.target_triple == old(self).target_triple,
            r.builder_name == old(self).builder_name,
            r.buildpacks == old(self).buildpacks,
            r.app_dir_preprocessor == old(self).app_dir_preprocessor,
            r.expected_pack_result == old(self).expected_pack_result,
    {
        let mut i: usize = 0;
        while i < envs.len()
            invariant
                0 <= i <= envs@.len(),
                self.app_dir == old(self).app_dir,
                self.target_triple == old(self).target_triple,
                self.builder_name == old(self).builder_name,
                self.buildpacks == old(self).buildpacks,
                self.app_dir_preprocessor == old(self).app_dir_preprocessor,
                self.expected_pack_result == old(self).expected_pack_result,
                forall|k: Seq<char>| lookup(self.env@, k) == updated_lookup(old(self).env@, envs@.take(i as int), k),
            decreases envs@.len() - i,
        {
            let (key, value) = envs[i];
            self.env(key, value);
            proof {
                assert(envs@.take(i + 1).drop_last() =~= envs@.take(i as int));
            }
            i += 1;
        }
        assert(envs@.take(envs@.len() as int) =~= envs@);
        self
    }

    /// Sets the function that prepares the copy of the app directory before the build.
    pub fn app_dir_preprocessor(&mut self, f: P) -> (r: &mut Self)
        ensures
            *final(self) == *final(r),
            *r == (TestConfig { app_dir_preprocessor: Some(f), ..*old(self) }),
    {
        self.app_dir_preprocessor = Some(f);
        self
    }

    /// Sets the app directory.
    pub fn app_dir(&mut self, path: &str) -> (r: &mut Self)
        ensures
            *final(self) == *final(r),
            r.app_dir@ == path@,
            r.target_triple == old(self).target_triple,
            r.builder_name == old(self).builder_name,
            r.buildpacks == old(self).buildpacks,
            r.env@ == old(self).env@,
            r.app_dir_preprocessor == old(self).app_dir_preprocessor,
            r.expected_pack_result == old(self).expected_pack_result,
    {
        self.app_dir = path.to_owned();
        self
    }

    /// Sets the outcome of `pack build` that the test expects.
    pub fn expected_pack_result(&mut self, pack_result: PackResult) -> (r: &mut Self)
        ensures
            *final(self) == *final(r),
            *r == (TestConfig { expected_pack_result: pack_result, ..*old(self) }),
    {
        self.expected_pack_result = pack_result;
        self
    }
}

} // verus!
