use vstd::prelude::*;

use crate::config::file_loader::{names_view, FileLoader, LoaderNames};
use crate::config::listing::{first_named, listed_from_conf, position_of, qualified, qualified_text, spec_listed_from_conf, Listable};
use crate::config::parse::{spec_string_base, string_base, FromConfig};
use crate::config::text::to_string;
use crate::config::{ConfigError, ConfigParseError};
use crate::config::CommanderType;
use crate::terrain::TerrainType;
use crate::tokens::TokenType;
use crate::units::{HeroType, MovementType, UnitType, UnitVisibility};

verus! {

/// The word at the start of `s`, the text after it, and the position of
/// the word among `names`.
pub open spec fn spec_lookup(names: Seq<Seq<char>>, s: Seq<char>) -> (Option<int>, Seq<char>, Seq<char>) {
    let (base, rest) = spec_string_base(s);
    (first_named(names, base), base, rest)
}

fn lookup<'a>(names: &Vec<Vec<char>>, s: &'a [char]) -> (r: (Option<usize>, &'a [char], &'a [char]))
    ensures
        (match r.0 { Some(i) => Some(i as int), None => None }, r.1@, r.2@) == spec_lookup(names_view(names@), s@),
{
    let (base, rest) = string_base(s);
    let i = position_of(names, base);
    (i, base, rest)
}

impl FromConfig for UnitType {
    /// A unit type by its name; an unknown name is `MissingUnit`.
    open spec fn spec_from_conf(s: Seq<char>, names: LoaderNames) -> Result<(UnitType, Seq<char>), ConfigError> {
        let (i, base, rest) = spec_lookup(names.unit_types, s);
        match i {
            Some(i) => Ok((UnitType(i as usize), rest)),
            None => Err(ConfigError::MissingUnit(base)),
        }
    }

    fn from_conf<'a>(s: &'a [char], loader: &FileLoader) -> (r: Result<(UnitType, &'a [char]), ConfigParseError>) {
        let (i, base, rest) = lookup(loader.unit_types_names(), s);
        match i {
            Some(i) => Ok((UnitType(i), rest)),
            None => Err(ConfigParseError::MissingUnit(to_string(base))),
        }
    }
}

impl FromConfig for TerrainType {
    /// A terrain type by its name; an unknown name is `MissingTerrain`.
    open spec fn spec_from_conf(s: Seq<char>, names: LoaderNames) -> Result<(TerrainType, Seq<char>), ConfigError> {
        let (i, base, rest) = spec_lookup(names.terrain_types, s);
        match i {
            Some(i) => Ok((TerrainType(i as usize), rest)),
            None => Err(ConfigError::MissingTerrain(base)),
        }
    }

    fn from_conf<'a>(s: &'a [char], loader: &FileLoader) -> (r: Result<(TerrainType, &'a [char]), ConfigParseError>) {
        let (i, base, rest) = lookup(loader.terrain_types_names(), s);
        match i {
            Some(i) => Ok((TerrainType(i), rest)),
            None => Err(ConfigParseError::MissingTerrain(to_string(base))),
        }
    }
}

impl FromConfig for HeroType {
    /// A hero type by its name; an unknown name is `UnknownEnumMember`.
    open spec fn spec_from_conf(s: Seq<char>, names: LoaderNames) -> Result<(HeroType, Seq<char>), ConfigError> {
        let (i, base, rest) = spec_lookup(names.hero_types, s);
        match i {
            Some(i) => Ok((HeroType(i as usize), rest)),
            None => Err(ConfigError::UnknownEnumMember(qualified("HeroType"@, base, None))),
        }
    }

    fn from_conf<'a>(s: &'a [char], loader: &FileLoader) -> (r: Result<(HeroType, &'a [char]), ConfigParseError>) {
        let (i, base, rest) = lookup(loader.hero_types_names(), s);
        match i {
            Some(i) => Ok((HeroType(i), rest)),
            None => Err(ConfigParseError::UnknownEnumMember(qualified_text("HeroType", base, None))),
        }
    }
}

impl FromConfig for MovementType {
    /// A movement type by its name; an unknown name is `UnknownEnumMember`.
    open spec fn spec_from_conf(s: Seq<char>, names: LoaderNames) -> Result<(MovementType, Seq<char>), ConfigError> {
        let (i, base, rest) = spec_lookup(names.movement_types, s);
        match i {
            Some(i) => Ok((MovementType(i as usize), rest)),
            None => Err(ConfigError::UnknownEnumMember(qualified("MovementType"@, base, None))),
        }
    }

    fn from_conf<'a>(s: &'a [char], loader: &FileLoader) -> (r: Result<(MovementType, &'a [char]), ConfigParseError>) {
        let (i, base, rest) = lookup(loader.movement_types_names(), s);
        match i {
            Some(i) => Ok((MovementType(i), rest)),
            None => Err(ConfigParseError::UnknownEnumMember(qualified_text("MovementType", base, None))),
        }
    }
}

impl FromConfig for TokenType {
    /// A token type by its name; an unknown name is `MissingToken`.
    open spec fn spec_from_conf(s: Seq<char>, names: LoaderNames) -> Result<(TokenType, Seq<char>), ConfigError> {
        let (i, base, rest) = spec_lookup(names.token_types, s);
        match i {
            Some(i) => Ok((TokenType(i as usize), rest)),
            None => Err(ConfigError::MissingToken(base)),
        }
    }

    fn from_conf<'a>(s: &'a [char], loader: &FileLoader) -> (r: Result<(TokenType, &'a [char]), ConfigParseError>) {
        let (i, base, rest) = lookup(loader.token_types_names(), s);
        match i {
            Some(i) => Ok((TokenType(i), rest)),
            None => Err(ConfigParseError::MissingToken(to_string(base))),
        }
    }
}

impl FromConfig for CommanderType {
    /// A commander type by its name; an unknown name is
    /// `UnknownEnumMember`.
    open spec fn spec_from_conf(s: Seq<char>, names: LoaderNames) -> Result<(CommanderType, Seq<char>), ConfigError> {
        let (i, base, rest) = spec_lookup(names.commander_types, s);
        match i {
            Some(i) => Ok((CommanderType(i as usize), rest)),
            None => Err(ConfigError::UnknownEnumMember(qualified("CommanderType"@, base, None))),
        }
    }

    fn from_conf<'a>(s: &'a [char], loader: &FileLoader) -> (r: Result<(CommanderType, &'a [char]), ConfigParseError>) {
        let (i, base, rest) = lookup(loader.commander_types_names(), s);
        match i {
            Some(i) => Ok((CommanderType(i), rest)),
            None => Err(ConfigParseError::UnknownEnumMember(qualified_text("CommanderType", base, None))),
        }
    }
}

impl Listable for UnitVisibility {
    open spec fn spec_list() -> Seq<Self> {
        seq![Self::Stealth, Self::Normal, Self::AlwaysVisible]
    }

    open spec fn spec_name(self) -> Seq<char> {
        match self {
            Self::Stealth => "Stealth"@,
            Self::Normal => "Normal"@,
            Self::AlwaysVisible => "AlwaysVisible"@,
        }
    }

    open spec fn spec_kind_name() -> Seq<char> {
        "UnitVisibility"@
    }

    fn list() -> (r: Vec<Self>) {
        vec![Self::Stealth, Self::Normal, Self::AlwaysVisible]
    }

    fn name(&self) -> (r: &'static str) {
        match self {
            Self::Stealth => "Stealth",
            Self::Normal => "Normal",
            Self::AlwaysVisible => "AlwaysVisible",
        }
    }

    fn kind_name() -> (r: &'static str) {
        "UnitVisibility"
    }
}

impl FromConfig for UnitVisibility {
    open spec fn spec_from_conf(s: Seq<char>, names: LoaderNames) -> Result<(Self, Seq<char>), ConfigError> {
        spec_listed_from_conf::<Self>(s)
    }

    fn from_conf<'a>(s: &'a [char], loader: &FileLoader) -> (r: Result<(Self, &'a [char]), ConfigParseError>) {
        listed_from_conf(s)
    }
}

} // verus!
