//! Items of the buildpack descriptor (`buildpack.toml`): the buildpack's own data, its
//! stacks and targets, the order of a composite buildpack, and the errors of reading one.
use crate::api::BuildpackApi;
use crate::buildpack_id::{BuildpackId, BuildpackIdError};
use crate::sbom::SbomFormat;
use crate::stack_id::{StackId, StackIdError};
use crate::text::{push_str, str_eq};
use crate::version::BuildpackVersion;
use vstd::prelude::*;

verus! {

/// An error in a buildpack descriptor.
#[derive(Debug, Clone, PartialEq, Eq)]
pub enum BuildpackTomlError {
    InvalidBuildpackApi(String),
    InvalidStarStack(String),
    InvalidStackId(StackIdError),
    InvalidBuildpackId(BuildpackIdError),
}

/// The strings of `parts` with `sep` between each two.
pub open spec fn join_with(parts: Seq<Seq<char>>, sep: Seq<char>) -> Seq<char>
    decreases parts.len(),
{
    if parts.len() == 0 {
        Seq::empty()
    } else if parts.len() == 1 {
        parts[0]
    } else {
        join_with(parts.drop_last(), sep) + sep + parts.last()
    }
}

/// The strings of `parts` with `sep` between each two (`[String]::join`).
pub fn join_strings(parts: &Vec<String>, sep: &str) -> (r: String)
    ensures
        r@ == join_with(parts@.map_values(|s: String| s@), sep@),
{
    let ghost views = parts@.map_values(|s: String| s@);
    let mut r = String::new();
    let mut i: usize = 0;
    while i < parts.len()
        invariant
            0 <= i <= parts@.len(),
            views == parts@.map_values(|s: String| s@),
            r@ == join_with(views.take(i as int), sep@),
        decreases parts@.len() - i,
    {
        if i > 0 {
            push_str(&mut r, sep);
        }
        push_str(&mut r, parts[i].as_str());
        proof {
            assert(views.take(i + 1).drop_last() =~= views.take(i as int));
            if i == 0 {
                assert(views.take(1) =~= seq![views[0]]);
            }
        }
        i += 1;
    }
    assert(views.take(parts@.len() as int) =~= views);
    r
}

/// A stack a buildpack supports, with the mixins it needs.
#[derive(Debug)]
pub struct Stack {
    pub id: StackId,
    pub mixins: Vec<String>,
}

impl Stack {
    /// A stack with the given ID and mixins. The stack `*` (any stack) cannot have mixins:
    /// that is an error that lists them.
    pub fn try_from(id: StackId, mixins: Vec<String>) -> (r: Result<Self, BuildpackTomlError>)
        ensures
            id@ == "*"@ && mixins@.len() > 0 ==> (r matches Err(BuildpackTomlError::InvalidStarStack(m))
                && m@ == join_with(mixins@.map_values(|s: String| s@), ", "@)),
            !(id@ == "*"@ && mixins@.len() > 0) ==> (r matches Ok(s) && s.id@ == id@ && s.mixins@
                == mixins@),
    {
        if str_eq(id.as_str(), "*") && mixins.len() > 0 {
            Err(BuildpackTomlError::InvalidStarStack(join_strings(&mixins, ", ")))
        } else {
            Ok(Stack { id, mixins })
        }
    }
}

/// A license of a buildpack.
#[derive(Debug, Clone)]
pub struct License {
    pub license_type: Option<String>,
    pub uri: Option<String>,
}

/// A distribution of an operating system that a buildpack supports.
#[derive(Debug, Clone)]
pub struct Distro {
    pub name: String,
    pub version: String,
}

/// A target that a buildpack supports.
#[derive(Debug, Clone)]
pub struct Target {
    pub os: Option<String>,
    pub arch: Option<String>,
    pub variant: Option<String>,
    pub distros: Vec<Distro>,
}

/// The buildpack's own data in its descriptor.
#[derive(Debug)]
pub struct Buildpack {
    pub id: BuildpackId,
    pub name: Option<String>,
    pub version: BuildpackVersion,
    pub homepage: Option<String>,
    pub clear_env: bool,
    pub description: Option<String>,
    pub keywords: Vec<String>,
    pub licenses: Vec<License>,
    pub sbom_formats: Vec<SbomFormat>,
}

/// A buildpack of a group of a composite buildpack's order.
#[derive(Debug)]
pub struct Group {
    pub id: BuildpackId,
    pub version: BuildpackVersion,
    pub optional: bool,
}

/// An order of a composite buildpack: a group of buildpacks.
#[derive(Debug)]
pub struct Order {
    pub group: Vec<Group>,
}

/// The descriptor of a component buildpack. `BM` is the type of its metadata.
#[derive(Debug)]
pub struct ComponentBuildpackDescriptor<BM> {
    pub api: BuildpackApi,
    pub buildpack: Buildpack,
    pub stacks: Vec<Stack>,
    pub targets: Vec<Target>,
    pub metadata: BM,
}

/// The descriptor of a composite buildpack. `BM` is the type of its metadata.
#[derive(Debug)]
pub struct CompositeBuildpackDescriptor<BM> {
    pub api: BuildpackApi,
    pub buildpack: Buildpack,
    pub order: Vec<Order>,
    pub metadata: BM,
}

/// A buildpack descriptor: of a component or of a composite buildpack.
#[derive(Debug)]
pub enum BuildpackDescriptor<BM> {
    Component(ComponentBuildpackDescriptor<BM>),
    Composite(CompositeBuildpackDescriptor<BM>),
}

impl<BM> BuildpackDescriptor<BM> {
    /// The buildpack's own data.
    pub fn buildpack(&self) -> (r: &Buildpack)
        ensures
            *r == match self {
                BuildpackDescriptor::Component(d) => d.buildpack,
                BuildpackDescriptor::Composite(d) => d.buildpack,
            },
    {
        match self {
            BuildpackDescriptor::Component(descriptor) => &descriptor.buildpack,
            BuildpackDescriptor::Composite(descriptor) => &descriptor.buildpack,
        }
    }
}

} // verus!
