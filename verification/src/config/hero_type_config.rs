use vstd::prelude::*;

use crate::config::file_loader::{FileLoader, LoaderNames};
use crate::config::hero_power_config::{HeroPowerConfig, HeroPowerConfigView};
use crate::config::listing::{listed_from_conf, spec_listed_from_conf, Listable};
use crate::config::parse::FromConfig;
use crate::config::table::{cell, parse_def, spec_parse_cell, TableHeader, TableLine, TableRow};
use crate::config::text::to_string;
use crate::config::{ConfigError, ConfigParseError};

verus! {

/// A hero type and its powers.
#[derive(Debug)]
pub struct HeroTypeConfig {
    pub name: String,
    pub max_charge: u32,
    pub aura_range: i8,
    pub aura_range_transported: i8,
    /// gets added to the unit's transport capacity
    pub transport_capacity: u8,
    pub powers: Vec<HeroPowerConfig>,
}

pub struct HeroTypeConfigView {
    pub name: Seq<char>,
    pub max_charge: u32,
    pub aura_range: i8,
    pub aura_range_transported: i8,
    pub transport_capacity: u8,
    pub powers: Seq<HeroPowerConfigView>,
}

impl View for HeroTypeConfig {
    type V = HeroTypeConfigView;

    open spec fn view(&self) -> HeroTypeConfigView {
        HeroTypeConfigView {
            name: self.name@,
            max_charge: self.max_charge,
            aura_range: self.aura_range,
            aura_range_transported: self.aura_range_transported,
            transport_capacity: self.transport_capacity,
            powers: self.powers@.map_values(|p: HeroPowerConfig| p@),
        }
    }
}

/// The columns of the hero table.
#[derive(Debug, Clone, Copy, PartialEq, Eq, Structural, Hash)]
pub enum HeroTypeConfigHeader {
    Id,
    Price,
    Charge,
    AuraRange,
    AuraRangeTransported,
    TransportCapacity,
}

impl Listable for HeroTypeConfigHeader {
    open spec fn spec_list() -> Seq<Self> {
        seq![Self::Id, Self::Price, Self::Charge, Self::AuraRange, Self::AuraRangeTransported, Self::TransportCapacity]
    }

    open spec fn spec_name(self) -> Seq<char> {
        match self {
            Self::Id => "Id"@,
            Self::Price => "Price"@,
            Self::Charge => "Charge"@,
            Self::AuraRange => "AuraRange"@,
            Self::AuraRangeTransported => "AuraRangeTransported"@,
            Self::TransportCapacity => "TransportCapacity"@,
        }
    }

    open spec fn spec_kind_name() -> Seq<char> {
        "HeroTypeConfigHeader"@
    }

    fn list() -> (r: Vec<Self>) {
        vec![Self::Id, Self::Price, Self::Charge, Self::AuraRange, Self::AuraRangeTransported, Self::TransportCapacity]
    }

    fn name(&self) -> (r: &'static str) {
        match self {
            Self::Id => "Id",
            Self::Price => "Price",
            Self::Charge => "Charge",
            Self::AuraRange => "AuraRange",
            Self::AuraRangeTransported => "AuraRangeTransported",
            Self::TransportCapacity => "TransportCapacity",
        }
    }

    fn kind_name() -> (r: &'static str) {
        "HeroTypeConfigHeader"
    }
}

impl FromConfig for HeroTypeConfigHeader {
    open spec fn spec_from_conf(s: Seq<char>, names: LoaderNames) -> Result<(Self, Seq<char>), ConfigError> {
        spec_listed_from_conf::<Self>(s)
    }

    fn from_conf<'a>(s: &'a [char], loader: &FileLoader) -> (r: Result<(Self, &'a [char]), ConfigParseError>) {
        listed_from_conf(s)
    }
}

impl TableHeader for HeroTypeConfigHeader {
    open spec fn spec_takes_custom() -> bool {
        false
    }

    fn takes_custom() -> (b: bool) {
        false
    }

    open spec fn spec_column(self) -> nat {
        match self {
            Self::Id => 0,
            Self::Price => 1,
            Self::Charge => 2,
            Self::AuraRange => 3,
            Self::AuraRangeTransported => 4,
            Self::TransportCapacity => 5,
        }
    }

    open spec fn spec_count() -> nat {
        6
    }

    fn column(self) -> (r: usize) {
        match self {
            Self::Id => 0,
            Self::Price => 1,
            Self::Charge => 2,
            Self::AuraRange => 3,
            Self::AuraRangeTransported => 4,
            Self::TransportCapacity => 5,
        }
    }

    fn count() -> (r: usize) {
        6
    }
}

impl TableLine for HeroTypeConfig {
    type Header = HeroTypeConfigHeader;

    /// The name is the `Id` cell as it stands; a hero starts without powers.
    open spec fn spec_parse(row: Seq<Option<Seq<char>>>, custom: Seq<(Seq<char>, Seq<char>)>, names: LoaderNames) -> (Result<HeroTypeConfigView, ConfigError>, LoaderNames) {
        (match cell(row, 0) {
            None => Err(ConfigError::MissingColumn(0)),
            Some(name) => match spec_parse_cell::<u32>(row, 2, Some(0u32), names) {
                Err(e) => Err(e),
                Ok(max_charge) => match spec_parse_cell::<i8>(row, 3, Some(0i8), names) {
                    Err(e) => Err(e),
                    Ok(aura_range) => match spec_parse_cell::<i8>(row, 4, Some(i8::MIN), names) {
                        Err(e) => Err(e),
                        Ok(aura_range_transported) => match spec_parse_cell::<u8>(row, 5, Some(0u8), names) {
                            Err(e) => Err(e),
                            Ok(transport_capacity) => Ok(HeroTypeConfigView {
                                name,
                                max_charge,
                                aura_range,
                                aura_range_transported,
                                transport_capacity,
                                powers: seq![],
                            }),
                        },
                    },
                },
            },
        }, names)
    }

    open spec fn spec_validation(line: HeroTypeConfigView) -> Result<(), ConfigError> {
        Ok(())
    }

    fn parse(row: &TableRow, loader: &mut FileLoader) -> (r: Result<Self, ConfigParseError>) {
        let name = match row.get(0) {
            None => return Err(ConfigParseError::MissingColumn(0)),
            Some(n) => to_string(n),
        };
        let max_charge = match parse_def::<u32>(row, 2, 0, loader) {
            Err(e) => return Err(e),
            Ok(v) => v,
        };
        let aura_range = match parse_def::<i8>(row, 3, 0, loader) {
            Err(e) => return Err(e),
            Ok(v) => v,
        };
        let aura_range_transported = match parse_def::<i8>(row, 4, i8::MIN, loader) {
            Err(e) => return Err(e),
            Ok(v) => v,
        };
        let transport_capacity = match parse_def::<u8>(row, 5, 0, loader) {
            Err(e) => return Err(e),
            Ok(v) => v,
        };
        let r = HeroTypeConfig {
            name,
            max_charge,
            aura_range,
            aura_range_transported,
            transport_capacity,
            powers: Vec::new(),
        };
        assert(r@.powers =~= seq![]);
        Ok(r)
    }

    fn simple_validation(&self) -> (r: Result<(), ConfigParseError>) {
        Ok(())
    }
}

} // verus!
