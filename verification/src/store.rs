//! The store a buildpack keeps between builds: a TOML table of metadata.
use toml::Table;
use vstd::prelude::*;

verus! {

/// Metadata a buildpack keeps from one build to the next.
#[derive(Debug)]
pub struct Store {
    pub metadata: Table,
}

} // verus!
