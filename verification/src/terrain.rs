use vstd::prelude::*;

verus! {

/// Index of a terrain type in the configuration.
#[derive(Debug, Clone, Copy, PartialEq, Eq, Structural, Hash)]
pub struct TerrainType(pub usize);

} // verus!
