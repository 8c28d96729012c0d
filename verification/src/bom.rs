//! A bill of materials: named entries, each with a TOML table of metadata.
use toml::Table;
use vstd::prelude::*;

verus! {

/// An entry of a bill of materials.
#[derive(Debug)]
pub struct Entry {
    pub name: String,
    pub metadata: Table,
}

/// A bill of materials.
pub type Bom = Vec<Entry>;

} // verus!
