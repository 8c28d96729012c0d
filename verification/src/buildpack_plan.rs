//! The buildpack plan a buildpack's build phase reads: the entries it is asked to provide.
use toml::Table;
use vstd::prelude::*;

verus! {

/// The entries that a buildpack is asked to provide.
#[derive(Debug)]
pub struct BuildpackPlan {
    pub entries: Vec<Entry>,
}

/// An entry of a buildpack plan: a name, with a TOML table of metadata.
#[derive(Debug)]
pub struct Entry {
    pub name: String,
    pub metadata: Table,
}

} // verus!
