//! The content metadata of a layer.
use vstd::prelude::*;

verus! {

/// Where a layer is available: at launch, during the build, and across builds.
#[derive(Debug, Clone, Copy, PartialEq, Eq, Structural)]
pub struct LayerTypes {
    pub launch: bool,
    pub build: bool,
    pub cache: bool,
}

impl LayerTypes {
    /// A layer available nowhere.
    pub fn default() -> (r: Self)
        ensures
            !r.launch && !r.build && !r.cache,
    {
        LayerTypes { launch: false, build: false, cache: false }
    }
}

/// The content metadata of a layer: its types and its metadata of type `M`.
#[derive(Debug)]
pub struct LayerContentMetadata<M> {
    pub types: Option<LayerTypes>,
    pub metadata: M,
}

} // verus!
