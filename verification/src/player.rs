use vstd::prelude::*;

verus! {

/// Owner id of a unit, terrain or detail; negative ids stand for no owner.
#[derive(Debug, Clone, Copy, PartialEq, Eq, Structural, Hash)]
pub struct Owner(pub i8);

/// Whose view of the game is meant: nobody's, or a team's.
#[derive(Debug, Clone, Copy, PartialEq, Eq, Structural, Hash)]
pub enum ClientPerspective {
    Neutral,
    Team(u8),
}

} // verus!
