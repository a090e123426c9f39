use vstd::prelude::*;

verus! {

/// Index of a token type in the configuration.
#[derive(Debug, Clone, Copy, PartialEq, Eq, Structural, Hash)]
pub struct TokenType(pub usize);

} // verus!
