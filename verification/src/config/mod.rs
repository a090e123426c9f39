pub mod attack_config;
pub mod attack_filter;
pub mod attack_powered;
pub mod commander_power_config;
pub mod commander_type_config;
pub mod config;
pub mod commander_unit_config;
pub mod custom_action_config;
pub mod editor_tag_config;
pub mod effect_config;
pub mod file_loader;
pub mod global_events;
pub mod hero_power_config;
pub mod kind_filter;
pub mod hero_type_config;
pub mod listing;
pub mod matrix;
pub mod movement_type_config;
pub mod names;
pub mod number_modification;
pub mod parse;
pub mod ruleset;
pub mod setup;
pub mod table;
pub mod table_config;
pub mod table_file;
pub mod tag_config;
pub mod terrain_powered;
pub mod terrain_type_config;
pub mod text;
pub mod token_type_config;
pub mod unit_filter;
pub mod unit_filter_check;
pub mod unit_type_config;
pub mod validity;

use vstd::prelude::*;

use crate::config::file_loader::{FileLoader, LoaderNames};
use crate::config::listing::{listed_from_conf, spec_listed_from_conf, Listable};
use crate::config::parse::FromConfig;
use crate::units::HeroType;

verus! {

/// Whether the things of a type have an owner: always, either way, or
/// never.
#[derive(Debug, Clone, Copy, PartialEq, Eq, Structural, Hash)]
pub enum OwnershipPredicate {
    Always,
    Either,
    Never,
}

impl Listable for OwnershipPredicate {
    open spec fn spec_list() -> Seq<Self> {
        seq![Self::Always, Self::Either, Self::Never]
    }

    open spec fn spec_name(self) -> Seq<char> {
        match self {
            Self::Always => "Always"@,
            Self::Either => "Either"@,
            Self::Never => "Never"@,
        }
    }

    open spec fn spec_kind_name() -> Seq<char> {
        "OwnershipPredicate"@
    }

    fn list() -> (r: Vec<Self>) {
        vec![Self::Always, Self::Either, Self::Never]
    }

    fn name(&self) -> (r: &'static str) {
        match self {
            Self::Always => "Always",
            Self::Either => "Either",
            Self::Never => "Never",
        }
    }

    fn kind_name() -> (r: &'static str) {
        "OwnershipPredicate"
    }
}

impl FromConfig for OwnershipPredicate {
    open spec fn spec_from_conf(s: Seq<char>, names: LoaderNames) -> Result<(Self, Seq<char>), ConfigError> {
        spec_listed_from_conf::<Self>(s)
    }

    fn from_conf<'a>(s: &'a [char], loader: &FileLoader) -> (r: Result<(Self, &'a [char]), ConfigParseError>) {
        listed_from_conf(s)
    }
}

/// Index of a commander type in the configuration.
#[derive(Debug, Clone, Copy, PartialEq, Eq, Structural, Hash)]
pub struct CommanderType(pub usize);

/// Why a configuration could not be read.
#[derive(Debug, Clone)]
pub enum ConfigParseError {
    CommanderMaxChargeExceeded(u32),
    CustomActionScriptMissing(String),
    DontCallGlobalScriptDirectly(String),
    DuplicateEntry(String),
    DuplicateHeader(String),
    EmptyList,
    FileMissing(String),
    FolderMissing(String),
    HeroMaxChargeExceeded(u8),
    InvalidCellData(String, usize, usize, String),
    InvalidColumnValue(String, String),
    InvalidBool(String),
    InvalidInteger(String),
    DivisionByZero(i32),
    InvalidNumber(String),
    InvalidNumberModifier(String),
    /// a column that the table needs is missing; the payload is the
    /// column's position in the header enum
    MissingColumn(usize),
    MissingCommanderForAttributes(CommanderType),
    MissingCommanderForPower(CommanderType),
    MissingHeroForPower(HeroType),
    NameTooShort,
    NotEnoughValues(String),
    NumberTooBig(String),
    ScriptCompilation(String, String),
    ScriptFunctionNotFound(String, String),
    ScriptNeedsFileAndFunctionName(String),
    TooManyPowers(CommanderType, usize),
    UnknownEnumMember(String),
    TableAxesShouldDiffer(String),
    TableEmpty,
    NotEnoughPlayerColors,
    MissingUnit(String),
    MissingTerrain(String),
    MissingNeutralColor,
    MissingToken(String),
    InvalidColor(String),
    Other(String),
}

/// `ConfigParseError` with texts seen as character sequences.
pub enum ConfigError {
    CommanderMaxChargeExceeded(u32),
    CustomActionScriptMissing(Seq<char>),
    DontCallGlobalScriptDirectly(Seq<char>),
    DuplicateEntry(Seq<char>),
    DuplicateHeader(Seq<char>),
    EmptyList,
    FileMissing(Seq<char>),
    FolderMissing(Seq<char>),
    HeroMaxChargeExceeded(u8),
    InvalidCellData(Seq<char>, usize, usize, Seq<char>),
    InvalidColumnValue(Seq<char>, Seq<char>),
    InvalidBool(Seq<char>),
    InvalidInteger(Seq<char>),
    DivisionByZero(i32),
    InvalidNumber(Seq<char>),
    InvalidNumberModifier(Seq<char>),
    MissingColumn(usize),
    MissingCommanderForAttributes(CommanderType),
    MissingCommanderForPower(CommanderType),
    MissingHeroForPower(HeroType),
    NameTooShort,
    NotEnoughValues(Seq<char>),
    NumberTooBig(Seq<char>),
    ScriptCompilation(Seq<char>, Seq<char>),
    ScriptFunctionNotFound(Seq<char>, Seq<char>),
    ScriptNeedsFileAndFunctionName(Seq<char>),
    TooManyPowers(CommanderType, usize),
    UnknownEnumMember(Seq<char>),
    TableAxesShouldDiffer(Seq<char>),
    TableEmpty,
    NotEnoughPlayerColors,
    MissingUnit(Seq<char>),
    MissingTerrain(Seq<char>),
    MissingNeutralColor,
    MissingToken(Seq<char>),
    InvalidColor(Seq<char>),
    Other(Seq<char>),
}

impl View for ConfigParseError {
    type V = ConfigError;

    open spec fn view(&self) -> ConfigError {
        match self {
            ConfigParseError::CommanderMaxChargeExceeded(v) => ConfigError::CommanderMaxChargeExceeded(*v),
            ConfigParseError::CustomActionScriptMissing(s) => ConfigError::CustomActionScriptMissing(s@),
            ConfigParseError::DontCallGlobalScriptDirectly(s) => ConfigError::DontCallGlobalScriptDirectly(s@),
            ConfigParseError::DuplicateEntry(s) => ConfigError::DuplicateEntry(s@),
            ConfigParseError::DuplicateHeader(s) => ConfigError::DuplicateHeader(s@),
            ConfigParseError::EmptyList => ConfigError::EmptyList,
            ConfigParseError::FileMissing(s) => ConfigError::FileMissing(s@),
            ConfigParseError::FolderMissing(s) => ConfigError::FolderMissing(s@),
            ConfigParseError::HeroMaxChargeExceeded(v) => ConfigError::HeroMaxChargeExceeded(*v),
            ConfigParseError::InvalidCellData(a, b, c, d) => ConfigError::InvalidCellData(a@, *b, *c, d@),
            ConfigParseError::InvalidColumnValue(a, b) => ConfigError::InvalidColumnValue(a@, b@),
            ConfigParseError::InvalidBool(s) => ConfigError::InvalidBool(s@),
            ConfigParseError::InvalidInteger(s) => ConfigError::InvalidInteger(s@),
            ConfigParseError::DivisionByZero(v) => ConfigError::DivisionByZero(*v),
            ConfigParseError::InvalidNumber(s) => ConfigError::InvalidNumber(s@),
            ConfigParseError::InvalidNumberModifier(s) => ConfigError::InvalidNumberModifier(s@),
            ConfigParseError::MissingColumn(v) => ConfigError::MissingColumn(*v),
            ConfigParseError::MissingCommanderForAttributes(c) => ConfigError::MissingCommanderForAttributes(*c),
            ConfigParseError::MissingCommanderForPower(c) => ConfigError::MissingCommanderForPower(*c),
            ConfigParseError::MissingHeroForPower(h) => ConfigError::MissingHeroForPower(*h),
            ConfigParseError::NameTooShort => ConfigError::NameTooShort,
            ConfigParseError::NotEnoughValues(s) => ConfigError::NotEnoughValues(s@),
            ConfigParseError::NumberTooBig(s) => ConfigError::NumberTooBig(s@),
            ConfigParseError::ScriptCompilation(a, b) => ConfigError::ScriptCompilation(a@, b@),
            ConfigParseError::ScriptFunctionNotFound(a, b) => ConfigError::ScriptFunctionNotFound(a@, b@),
            ConfigParseError::ScriptNeedsFileAndFunctionName(s) => ConfigError::ScriptNeedsFileAndFunctionName(s@),
            ConfigParseError::TooManyPowers(c, n) => ConfigError::TooManyPowers(*c, *n),
            ConfigParseError::UnknownEnumMember(s) => ConfigError::UnknownEnumMember(s@),
            ConfigParseError::TableAxesShouldDiffer(s) => ConfigError::TableAxesShouldDiffer(s@),
            ConfigParseError::TableEmpty => ConfigError::TableEmpty,
            ConfigParseError::NotEnoughPlayerColors => ConfigError::NotEnoughPlayerColors,
            ConfigParseError::MissingUnit(s) => ConfigError::MissingUnit(s@),
            ConfigParseError::MissingTerrain(s) => ConfigError::MissingTerrain(s@),
            ConfigParseError::MissingNeutralColor => ConfigError::MissingNeutralColor,
            ConfigParseError::MissingToken(s) => ConfigError::MissingToken(s@),
            ConfigParseError::InvalidColor(s) => ConfigError::InvalidColor(s@),
            ConfigParseError::Other(s) => ConfigError::Other(s@),
        }
    }
}


impl ConfigParseError {
    /// A copy of this error.
    pub fn duplicate(&self) -> (r: Self)
        ensures
            r@ == self@,
    {
        match self {
            ConfigParseError::CommanderMaxChargeExceeded(v) => ConfigParseError::CommanderMaxChargeExceeded(*v),
            ConfigParseError::CustomActionScriptMissing(s) => ConfigParseError::CustomActionScriptMissing(s.clone()),
            ConfigParseError::DontCallGlobalScriptDirectly(s) => ConfigParseError::DontCallGlobalScriptDirectly(s.clone()),
            ConfigParseError::DuplicateEntry(s) => ConfigParseError::DuplicateEntry(s.clone()),
            ConfigParseError::DuplicateHeader(s) => ConfigParseError::DuplicateHeader(s.clone()),
            ConfigParseError::EmptyList => ConfigParseError::EmptyList,
            ConfigParseError::FileMissing(s) => ConfigParseError::FileMissing(s.clone()),
            ConfigParseError::FolderMissing(s) => ConfigParseError::FolderMissing(s.clone()),
            ConfigParseError::HeroMaxChargeExceeded(v) => ConfigParseError::HeroMaxChargeExceeded(*v),
            ConfigParseError::InvalidCellData(a, b, c, d) => ConfigParseError::InvalidCellData(a.clone(), *b, *c, d.clone()),
            ConfigParseError::InvalidColumnValue(a, b) => ConfigParseError::InvalidColumnValue(a.clone(), b.clone()),
            ConfigParseError::InvalidBool(s) => ConfigParseError::InvalidBool(s.clone()),
            ConfigParseError::InvalidInteger(s) => ConfigParseError::InvalidInteger(s.clone()),
            ConfigParseError::DivisionByZero(v) => ConfigParseError::DivisionByZero(*v),
            ConfigParseError::InvalidNumber(s) => ConfigParseError::InvalidNumber(s.clone()),
            ConfigParseError::InvalidNumberModifier(s) => ConfigParseError::InvalidNumberModifier(s.clone()),
            ConfigParseError::MissingColumn(v) => ConfigParseError::MissingColumn(*v),
            ConfigParseError::MissingCommanderForAttributes(c) => ConfigParseError::MissingCommanderForAttributes(*c),
            ConfigParseError::MissingCommanderForPower(c) => ConfigParseError::MissingCommanderForPower(*c),
            ConfigParseError::MissingHeroForPower(h) => ConfigParseError::MissingHeroForPower(*h),
            ConfigParseError::NameTooShort => ConfigParseError::NameTooShort,
            ConfigParseError::NotEnoughValues(s) => ConfigParseError::NotEnoughValues(s.clone()),
            ConfigParseError::NumberTooBig(s) => ConfigParseError::NumberTooBig(s.clone()),
            ConfigParseError::ScriptCompilation(a, b) => ConfigParseError::ScriptCompilation(a.clone(), b.clone()),
            ConfigParseError::ScriptFunctionNotFound(a, b) => ConfigParseError::ScriptFunctionNotFound(a.clone(), b.clone()),
            ConfigParseError::ScriptNeedsFileAndFunctionName(s) => ConfigParseError::ScriptNeedsFileAndFunctionName(s.clone()),
            ConfigParseError::TooManyPowers(c, n) => ConfigParseError::TooManyPowers(*c, *n),
            ConfigParseError::UnknownEnumMember(s) => ConfigParseError::UnknownEnumMember(s.clone()),
            ConfigParseError::TableAxesShouldDiffer(s) => ConfigParseError::TableAxesShouldDiffer(s.clone()),
            ConfigParseError::TableEmpty => ConfigParseError::TableEmpty,
            ConfigParseError::NotEnoughPlayerColors => ConfigParseError::NotEnoughPlayerColors,
            ConfigParseError::MissingUnit(s) => ConfigParseError::MissingUnit(s.clone()),
            ConfigParseError::MissingTerrain(s) => ConfigParseError::MissingTerrain(s.clone()),
            ConfigParseError::MissingNeutralColor => ConfigParseError::MissingNeutralColor,
            ConfigParseError::MissingToken(s) => ConfigParseError::MissingToken(s.clone()),
            ConfigParseError::InvalidColor(s) => ConfigParseError::InvalidColor(s.clone()),
            ConfigParseError::Other(s) => ConfigParseError::Other(s.clone()),
        }
    }
}

} // verus!
