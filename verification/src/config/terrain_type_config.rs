use vstd::prelude::*;

use crate::config::file_loader::{FileLoader, LoaderNames};
use crate::config::listing::{listed_from_conf, spec_listed_from_conf, str_chars, Listable};
use crate::config::parse::FromConfig;
use crate::config::table::{cell, parse_def, spec_parse_cell, TableHeader, TableLine, TableRow};
use crate::config::text::{spec_trim, to_string, trim};
use crate::config::{ConfigError, ConfigParseError, OwnershipPredicate};
use crate::fraction::Fraction;
use crate::movement::ExtraMovementOptions;

verus! {

/// A terrain type as the terrain table declares it.
#[derive(Debug)]
pub struct TerrainTypeConfig {
    pub name: String,
    pub owned: OwnershipPredicate,
    pub owner_is_playable: bool,
    pub chess: bool,
    /// can be changed by commander powers and hero auras
    pub income_factor: Fraction,
    pub vision_range: i8,
    pub extra_movement_options: ExtraMovementOptions,
}

pub struct TerrainTypeConfigView {
    pub name: Seq<char>,
    pub owned: OwnershipPredicate,
    pub owner_is_playable: bool,
    pub chess: bool,
    pub income_factor: Fraction,
    pub vision_range: i8,
    pub extra_movement_options: ExtraMovementOptions,
}

impl View for TerrainTypeConfig {
    type V = TerrainTypeConfigView;

    open spec fn view(&self) -> TerrainTypeConfigView {
        TerrainTypeConfigView {
            name: self.name@,
            owned: self.owned,
            owner_is_playable: self.owner_is_playable,
            chess: self.chess,
            income_factor: self.income_factor,
            vision_range: self.vision_range,
            extra_movement_options: self.extra_movement_options,
        }
    }
}

/// The columns of the terrain table (previews are drawn elsewhere).
#[derive(Debug, Clone, Copy, PartialEq, Eq, Structural, Hash)]
pub enum TerrainTypeConfigHeader {
    Id,
    Owned,
    OwnerPlayable,
    VisionRange,
    IncomeFactor,
    Chess,
    MovementOptions,
    Preview,
}

impl Listable for TerrainTypeConfigHeader {
    open spec fn spec_list() -> Seq<Self> {
        seq![
            Self::Id,
            Self::Owned,
            Self::OwnerPlayable,
            Self::VisionRange,
            Self::IncomeFactor,
            Self::Chess,
            Self::MovementOptions,
            Self::Preview,
        ]
    }

    open spec fn spec_name(self) -> Seq<char> {
        match self {
            Self::Id => "Id"@,
            Self::Owned => "Owned"@,
            Self::OwnerPlayable => "OwnerPlayable"@,
            Self::VisionRange => "VisionRange"@,
            Self::IncomeFactor => "IncomeFactor"@,
            Self::Chess => "Chess"@,
            Self::MovementOptions => "MovementOptions"@,
            Self::Preview => "Preview"@,
        }
    }

    open spec fn spec_kind_name() -> Seq<char> {
        "TerrainTypeConfigHeader"@
    }

    fn list() -> (r: Vec<Self>) {
        vec![
            Self::Id,
            Self::Owned,
            Self::OwnerPlayable,
            Self::VisionRange,
            Self::IncomeFactor,
            Self::Chess,
            Self::MovementOptions,
            Self::Preview,
        ]
    }

    fn name(&self) -> (r: &'static str) {
        match self {
            Self::Id => "Id",
            Self::Owned => "Owned",
            Self::OwnerPlayable => "OwnerPlayable",
            Self::VisionRange => "VisionRange",
            Self::IncomeFactor => "IncomeFactor",
            Self::Chess => "Chess",
            Self::MovementOptions => "MovementOptions",
            Self::Preview => "Preview",
        }
    }

    fn kind_name() -> (r: &'static str) {
        "TerrainTypeConfigHeader"
    }
}

impl FromConfig for TerrainTypeConfigHeader {
    open spec fn spec_from_conf(s: Seq<char>, names: LoaderNames) -> Result<(Self, Seq<char>), ConfigError> {
        spec_listed_from_conf::<Self>(s)
    }

    fn from_conf<'a>(s: &'a [char], loader: &FileLoader) -> (r: Result<(Self, &'a [char]), ConfigParseError>) {
        listed_from_conf(s)
    }
}

impl TableHeader for TerrainTypeConfigHeader {
    open spec fn spec_takes_custom() -> bool {
        false
    }

    fn takes_custom() -> (b: bool) {
        false
    }

    open spec fn spec_column(self) -> nat {
        match self {
            Self::Id => 0,
            Self::Owned => 1,
            Self::OwnerPlayable => 2,
            Self::VisionRange => 3,
            Self::IncomeFactor => 4,
            Self::Chess => 5,
            Self::MovementOptions => 6,
            Self::Preview => 7,
        }
    }

    open spec fn spec_count() -> nat {
        8
    }

    fn column(self) -> (r: usize) {
        match self {
            Self::Id => 0,
            Self::Owned => 1,
            Self::OwnerPlayable => 2,
            Self::VisionRange => 3,
            Self::IncomeFactor => 4,
            Self::Chess => 5,
            Self::MovementOptions => 6,
            Self::Preview => 7,
        }
    }

    fn count() -> (r: usize) {
        8
    }
}

impl TableLine for TerrainTypeConfig {
    type Header = TerrainTypeConfigHeader;

    /// The name is the `Id` cell as it stands (the column is needed); the
    /// other cells have defaults and are read in the order of the fields.
    open spec fn spec_parse(row: Seq<Option<Seq<char>>>, custom: Seq<(Seq<char>, Seq<char>)>, names: LoaderNames) -> (Result<TerrainTypeConfigView, ConfigError>, LoaderNames) {
        (match cell(row, 0) {
            None => Err(ConfigError::MissingColumn(0)),
            Some(name) => match spec_parse_cell::<OwnershipPredicate>(row, 1, Some(OwnershipPredicate::Either), names) {
                Err(e) => Err(e),
                Ok(owned) => match spec_parse_cell::<bool>(row, 2, Some(false), names) {
                    Err(e) => Err(e),
                    Ok(owner_is_playable) => match spec_parse_cell::<i8>(row, 3, Some(-1i8), names) {
                        Err(e) => Err(e),
                        Ok(vision_range) => match spec_parse_cell::<Fraction>(row, 4, Some(Fraction::spec_from_integer(0)), names) {
                            Err(e) => Err(e),
                            Ok(income_factor) => match spec_parse_cell::<bool>(row, 5, Some(false), names) {
                                Err(e) => Err(e),
                                Ok(chess) => match spec_parse_cell::<ExtraMovementOptions>(row, 6, Some(ExtraMovementOptions::NoExtra), names) {
                                    Err(e) => Err(e),
                                    Ok(extra_movement_options) => Ok(TerrainTypeConfigView {
                                        name,
                                        owned,
                                        owner_is_playable,
                                        chess,
                                        income_factor,
                                        vision_range,
                                        extra_movement_options,
                                    }),
                                },
                            },
                        },
                    },
                },
            },
        }, names)
    }

    /// The name must hold more than whitespace.
    open spec fn spec_validation(line: TerrainTypeConfigView) -> Result<(), ConfigError> {
        if spec_trim(line.name).len() == 0 {
            Err(ConfigError::NameTooShort)
        } else {
            Ok(())
        }
    }

    fn parse(row: &TableRow, loader: &mut FileLoader) -> (r: Result<Self, ConfigParseError>) {
        let name = match row.get(0) {
            None => return Err(ConfigParseError::MissingColumn(0)),
            Some(n) => to_string(n),
        };
        let owned = match parse_def::<OwnershipPredicate>(row, 1, OwnershipPredicate::Either, loader) {
            Err(e) => return Err(e),
            Ok(v) => v,
        };
        let owner_is_playable = match parse_def::<bool>(row, 2, false, loader) {
            Err(e) => return Err(e),
            Ok(v) => v,
        };
        let vision_range = match parse_def::<i8>(row, 3, -1, loader) {
            Err(e) => return Err(e),
            Ok(v) => v,
        };
        let income_factor = match parse_def::<Fraction>(row, 4, Fraction::from_integer(0), loader) {
            Err(e) => return Err(e),
            Ok(v) => v,
        };
        let chess = match parse_def::<bool>(row, 5, false, loader) {
            Err(e) => return Err(e),
            Ok(v) => v,
        };
        let extra_movement_options = match parse_def::<ExtraMovementOptions>(row, 6, ExtraMovementOptions::NoExtra, loader) {
            Err(e) => return Err(e),
            Ok(v) => v,
        };
        Ok(TerrainTypeConfig { name, owned, owner_is_playable, chess, income_factor, vision_range, extra_movement_options })
    }

    fn simple_validation(&self) -> (r: Result<(), ConfigParseError>) {
        let n = str_chars(self.name.as_str());
        if trim(n.as_slice()).len() == 0 {
            Err(ConfigParseError::NameTooShort)
        } else {
            Ok(())
        }
    }
}

} // verus!
