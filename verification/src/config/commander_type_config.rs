use vstd::prelude::*;

use crate::config::commander_power_config::{CommanderPowerConfig, CommanderPowerConfigView};
use crate::config::file_loader::{FileLoader, LoaderNames};
use crate::config::listing::{listed_from_conf, spec_listed_from_conf, str_chars, Listable};
use crate::config::parse::FromConfig;
use crate::config::table::{cell, parse, parse_def, spec_parse_cell, TableHeader, TableLine, TableRow};
use crate::config::text::{spec_trim, to_string, trim};
use crate::config::{ConfigError, ConfigParseError};

verus! {

/// What doesn't change about a commander type when it uses another power.
#[derive(Debug)]
pub struct CommanderTypeConfig {
    pub name: String,
    pub transport_capacity: u8,
    pub max_charge: u32,
    pub powers: Vec<CommanderPowerConfig>,
}

pub struct CommanderTypeConfigView {
    pub name: Seq<char>,
    pub transport_capacity: u8,
    pub max_charge: u32,
    pub powers: Seq<CommanderPowerConfigView>,
}

impl View for CommanderTypeConfig {
    type V = CommanderTypeConfigView;

    open spec fn view(&self) -> CommanderTypeConfigView {
        CommanderTypeConfigView {
            name: self.name@,
            transport_capacity: self.transport_capacity,
            max_charge: self.max_charge,
            powers: self.powers@.map_values(|p: CommanderPowerConfig| p@),
        }
    }
}

/// The columns of the commander table.
#[derive(Debug, Clone, Copy, PartialEq, Eq, Structural, Hash)]
pub enum CommanderTypeConfigHeader {
    Id,
    TransportCapacity,
    Charge,
}

impl Listable for CommanderTypeConfigHeader {
    open spec fn spec_list() -> Seq<Self> {
        seq![Self::Id, Self::TransportCapacity, Self::Charge]
    }

    open spec fn spec_name(self) -> Seq<char> {
        match self {
            Self::Id => "Id"@,
            Self::TransportCapacity => "TransportCapacity"@,
            Self::Charge => "Charge"@,
        }
    }

    open spec fn spec_kind_name() -> Seq<char> {
        "CommanderTypeConfigHeader"@
    }

    fn list() -> (r: Vec<Self>) {
        vec![Self::Id, Self::TransportCapacity, Self::Charge]
    }

    fn name(&self) -> (r: &'static str) {
        match self {
            Self::Id => "Id",
            Self::TransportCapacity => "TransportCapacity",
            Self::Charge => "Charge",
        }
    }

    fn kind_name() -> (r: &'static str) {
        "CommanderTypeConfigHeader"
    }
}

impl FromConfig for CommanderTypeConfigHeader {
    open spec fn spec_from_conf(s: Seq<char>, names: LoaderNames) -> Result<(Self, Seq<char>), ConfigError> {
        spec_listed_from_conf::<Self>(s)
    }

    fn from_conf<'a>(s: &'a [char], loader: &FileLoader) -> (r: Result<(Self, &'a [char]), ConfigParseError>) {
        listed_from_conf(s)
    }
}

impl TableHeader for CommanderTypeConfigHeader {
    open spec fn spec_takes_custom() -> bool {
        false
    }

    fn takes_custom() -> (b: bool) {
        false
    }

    open spec fn spec_column(self) -> nat {
        match self {
            Self::Id => 0,
            Self::TransportCapacity => 1,
            Self::Charge => 2,
        }
    }

    open spec fn spec_count() -> nat {
        3
    }

    fn column(self) -> (r: usize) {
        match self {
            Self::Id => 0,
            Self::TransportCapacity => 1,
            Self::Charge => 2,
        }
    }

    fn count() -> (r: usize) {
        3
    }
}

impl TableLine for CommanderTypeConfig {
    type Header = CommanderTypeConfigHeader;

    /// The name is the `Id` cell as it stands; the charge column is needed;
    /// a commander type starts without powers.
    open spec fn spec_parse(row: Seq<Option<Seq<char>>>, custom: Seq<(Seq<char>, Seq<char>)>, names: LoaderNames) -> (Result<CommanderTypeConfigView, ConfigError>, LoaderNames) {
        (match cell(row, 0) {
            None => Err(ConfigError::MissingColumn(0)),
            Some(name) => match spec_parse_cell::<u8>(row, 1, Some(0u8), names) {
                Err(e) => Err(e),
                Ok(transport_capacity) => match spec_parse_cell::<u32>(row, 2, None, names) {
                    Err(e) => Err(e),
                    Ok(max_charge) => Ok(CommanderTypeConfigView { name, transport_capacity, max_charge, powers: seq![] }),
                },
            },
        }, names)
    }

    /// The name must hold more than whitespace, and the maximum charge must
    /// fit in an `i32`.
    open spec fn spec_validation(line: CommanderTypeConfigView) -> Result<(), ConfigError> {
        if spec_trim(line.name).len() == 0 {
            Err(ConfigError::NameTooShort)
        } else if line.max_charge > i32::MAX as u32 {
            Err(ConfigError::CommanderMaxChargeExceeded(i32::MAX as u32))
        } else {
            Ok(())
        }
    }

    fn parse(row: &TableRow, loader: &mut FileLoader) -> (r: Result<Self, ConfigParseError>) {
        let name = match row.get(0) {
            None => return Err(ConfigParseError::MissingColumn(0)),
            Some(n) => to_string(n),
        };
        let transport_capacity = match parse_def::<u8>(row, 1, 0, loader) {
            Err(e) => return Err(e),
            Ok(v) => v,
        };
        let max_charge = match parse::<u32>(row, 2, loader) {
            Err(e) => return Err(e),
            Ok(v) => v,
        };
        let r = CommanderTypeConfig { name, transport_capacity, max_charge, powers: Vec::new() };
        assert(r@.powers =~= seq![]);
        Ok(r)
    }

    fn simple_validation(&self) -> (r: Result<(), ConfigParseError>) {
        let n = str_chars(self.name.as_str());
        if trim(n.as_slice()).len() == 0 {
            Err(ConfigParseError::NameTooShort)
        } else if self.max_charge > i32::MAX as u32 {
            Err(ConfigParseError::CommanderMaxChargeExceeded(i32::MAX as u32))
        } else {
            Ok(())
        }
    }
}

} // verus!
