use vstd::prelude::*;

verus! {

/// Index of a unit type in the configuration.
#[derive(Debug, Clone, Copy, PartialEq, Eq, Structural, Hash)]
pub struct UnitType(pub usize);

/// Index of a hero type in the configuration.
#[derive(Debug, Clone, Copy, PartialEq, Eq, Structural, Hash)]
pub struct HeroType(pub usize);

/// Index of a movement type in the configuration.
#[derive(Debug, Clone, Copy, PartialEq, Eq, Structural, Hash)]
pub struct MovementType(pub usize);

/// Index of a unit attribute.
#[derive(Debug, Clone, Copy, PartialEq, Eq, Structural, Hash)]
pub struct AttributeKey(pub usize);

/// The value a unit holds for one attribute.
#[derive(Debug, Clone, Copy, PartialEq, Eq, Structural, Hash)]
pub struct Attribute {
    pub key: AttributeKey,
    pub value: i32,
}

/// How hard a unit is to see.
#[derive(Debug, Clone, Copy, PartialEq, Eq, Structural, Hash)]
pub enum UnitVisibility {
    Stealth,
    Normal,
    AlwaysVisible,
}

} // verus!
