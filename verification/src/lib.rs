//! Rules core of a turn-based tactics game: board details, movement
//! patterns, fog of war, commanders and the configuration grammar.

pub mod details;
pub mod direction;
pub mod fog;
pub mod fraction;
pub mod player;
pub mod terrain;
pub mod units;
pub mod config;
pub mod movement;
pub mod point;
pub mod tags;
pub mod tokens;
pub mod combat;
pub mod splash_damage;
pub mod attack_pattern;
pub mod commander;
pub mod field_modifiers;
