use vstd::prelude::*;

use crate::player::Owner;

verus! {

/// Something that changes a field: coins to collect, or a factory bubble.
#[derive(Debug, Clone, Copy, PartialEq, Eq, Structural)]
pub enum FieldModifier {
    Coins1,
    Coins2,
    Coins4,
    FactoryBubble(Owner),
}

impl FieldModifier {
    /// What a team sees of this modifier in fog: it stays visible as it is.
    pub fn fog_replacement(&self) -> (r: Option<Self>)
        ensures
            r == Some(*self),
    {
        match self {
            FieldModifier::Coins1 | FieldModifier::Coins2 | FieldModifier::Coins4 => Some(*self),
            FieldModifier::FactoryBubble(_) => Some(*self),
        }
    }
}

} // verus!
