use vstd::prelude::*;

use crate::config::file_loader::{FileLoader, LoaderNames};
use crate::config::hero_power_config::{spec_power_script, CustomAction, HeroPowerConfig};
use crate::config::listing::{listed_from_conf, spec_listed_from_conf, Listable};
use crate::config::parse::FromConfig;
use crate::config::table::{cell, parse, parse_def, parse_vec_def, spec_parse_cell, spec_parse_vec_cell, TableHeader, TableLine, TableRow};
use crate::config::text::to_string;
use crate::config::CommanderType;
use crate::config::{ConfigError, ConfigParseError};

verus! {

/// One power of a commander type.
#[derive(Debug)]
pub struct CommanderPowerConfig {
    pub id: CommanderType,
    /// name of the ability
    pub name: String,
    pub usable_from_power: Vec<u8>,
    /// at the start of the player's turn, this index is switched to if
    /// possible (e.g. the player has enough charge)
    pub next_power: u8,
    pub required_charge: u32,
    pub script: Option<CustomAction>,
    pub prevents_charging: bool,
}

pub struct CommanderPowerConfigView {
    pub id: CommanderType,
    pub name: Seq<char>,
    pub usable_from_power: Seq<u8>,
    pub next_power: u8,
    pub required_charge: u32,
    pub script: Option<CustomAction>,
    pub prevents_charging: bool,
}

impl View for CommanderPowerConfig {
    type V = CommanderPowerConfigView;

    open spec fn view(&self) -> CommanderPowerConfigView {
        CommanderPowerConfigView {
            id: self.id,
            name: self.name@,
            usable_from_power: self.usable_from_power@,
            next_power: self.next_power,
            required_charge: self.required_charge,
            script: self.script,
            prevents_charging: self.prevents_charging,
        }
    }
}

/// The columns of the commander power table.
#[derive(Debug, Clone, Copy, PartialEq, Eq, Structural, Hash)]
pub enum CommanderPowerConfigHeader {
    Id,
    Name,
    UsableFromPowers,
    NextPower,
    RequiredCharge,
    Script,
    PreventsCharging,
}

impl Listable for CommanderPowerConfigHeader {
    open spec fn spec_list() -> Seq<Self> {
        seq![Self::Id, Self::Name, Self::UsableFromPowers, Self::NextPower, Self::RequiredCharge, Self::Script, Self::PreventsCharging]
    }

    open spec fn spec_name(self) -> Seq<char> {
        match self {
            Self::Id => "Id"@,
            Self::Name => "Name"@,
            Self::UsableFromPowers => "UsableFromPowers"@,
            Self::NextPower => "NextPower"@,
            Self::RequiredCharge => "RequiredCharge"@,
            Self::Script => "Script"@,
            Self::PreventsCharging => "PreventsCharging"@,
        }
    }

    open spec fn spec_kind_name() -> Seq<char> {
        "CommanderPowerConfigHeader"@
    }

    fn list() -> (r: Vec<Self>) {
        vec![Self::Id, Self::Name, Self::UsableFromPowers, Self::NextPower, Self::RequiredCharge, Self::Script, Self::PreventsCharging]
    }

    fn name(&self) -> (r: &'static str) {
        match self {
            Self::Id => "Id",
            Self::Name => "Name",
            Self::UsableFromPowers => "UsableFromPowers",
            Self::NextPower => "NextPower",
            Self::RequiredCharge => "RequiredCharge",
            Self::Script => "Script",
            Self::PreventsCharging => "PreventsCharging",
        }
    }

    fn kind_name() -> (r: &'static str) {
        "CommanderPowerConfigHeader"
    }
}

impl FromConfig for CommanderPowerConfigHeader {
    open spec fn spec_from_conf(s: Seq<char>, names: LoaderNames) -> Result<(Self, Seq<char>), ConfigError> {
        spec_listed_from_conf::<Self>(s)
    }

    fn from_conf<'a>(s: &'a [char], loader: &FileLoader) -> (r: Result<(Self, &'a [char]), ConfigParseError>) {
        listed_from_conf(s)
    }
}

impl TableHeader for CommanderPowerConfigHeader {
    open spec fn spec_takes_custom() -> bool {
        false
    }

    fn takes_custom() -> (b: bool) {
        false
    }

    open spec fn spec_column(self) -> nat {
        match self {
            Self::Id => 0,
            Self::Name => 1,
            Self::UsableFromPowers => 2,
            Self::NextPower => 3,
            Self::RequiredCharge => 4,
            Self::Script => 5,
            Self::PreventsCharging => 6,
        }
    }

    open spec fn spec_count() -> nat {
        7
    }

    fn column(self) -> (r: usize) {
        match self {
            Self::Id => 0,
            Self::Name => 1,
            Self::UsableFromPowers => 2,
            Self::NextPower => 3,
            Self::RequiredCharge => 4,
            Self::Script => 5,
            Self::PreventsCharging => 6,
        }
    }

    fn count() -> (r: usize) {
        7
    }
}

/// The columns of a commander power before its script, read in order: the
/// commander type (needed), the name as it stands (needed), the powers it
/// can be used from (none by default), the next power and the charge it
/// needs (0 by default).
pub open spec fn spec_commander_power_head(row: Seq<Option<Seq<char>>>, names: LoaderNames) -> Result<(CommanderType, Seq<char>, Seq<u8>, u8, u32), ConfigError> {
    match spec_parse_cell::<CommanderType>(row, 0, None, names) {
        Err(e) => Err(e),
        Ok(id) => match cell(row, 1) {
            None => Err(ConfigError::MissingColumn(1)),
            Some(name) => match spec_parse_vec_cell::<u8>(row, 2, Some(seq![]), names) {
                Err(e) => Err(e),
                Ok(usable_from_power) => match spec_parse_cell::<u8>(row, 3, Some(0u8), names) {
                    Err(e) => Err(e),
                    Ok(next_power) => match spec_parse_cell::<u32>(row, 4, Some(0u32), names) {
                        Err(e) => Err(e),
                        Ok(required_charge) => Ok((id, name, usable_from_power, next_power, required_charge)),
                    },
                },
            },
        },
    }
}

impl TableLine for CommanderPowerConfig {
    type Header = CommanderPowerConfigHeader;

    /// The columns of `spec_commander_power_head`, then the script (see
    /// `spec_power_script`), then whether the power keeps the commander
    /// from charging (false by default).
    open spec fn spec_parse(row: Seq<Option<Seq<char>>>, custom: Seq<(Seq<char>, Seq<char>)>, names: LoaderNames) -> (Result<CommanderPowerConfigView, ConfigError>, LoaderNames) {
        match spec_commander_power_head(row, names) {
            Err(e) => (Err(e), names),
            Ok((id, name, usable_from_power, next_power, required_charge)) => {
                let (script, n) = spec_power_script(row, 5, names);
                match script {
                    Err(e) => (Err(e), n),
                    Ok(script) => (match spec_parse_cell::<bool>(row, 6, Some(false), n) {
                        Err(e) => Err(e),
                        Ok(prevents_charging) => Ok(CommanderPowerConfigView {
                            id,
                            name,
                            usable_from_power,
                            next_power,
                            required_charge,
                            script,
                            prevents_charging,
                        }),
                    }, n),
                }
            },
        }
    }

    open spec fn spec_validation(line: CommanderPowerConfigView) -> Result<(), ConfigError> {
        Ok(())
    }

    fn parse(row: &TableRow, loader: &mut FileLoader) -> (r: Result<Self, ConfigParseError>) {
        let id = match parse::<CommanderType>(row, 0, loader) {
            Err(e) => return Err(e),
            Ok(v) => v,
        };
        let name = match row.get(1) {
            None => return Err(ConfigParseError::MissingColumn(1)),
            Some(n) => to_string(n),
        };
        let usable_from_power = match parse_vec_def::<u8>(row, 2, Vec::new(), loader) {
            Err(e) => return Err(e),
            Ok(v) => v,
        };
        let next_power = match parse_def::<u8>(row, 3, 0, loader) {
            Err(e) => return Err(e),
            Ok(v) => v,
        };
        let required_charge = match parse_def::<u32>(row, 4, 0, loader) {
            Err(e) => return Err(e),
            Ok(v) => v,
        };
        let script = match HeroPowerConfig::parse_script(row, 5, loader) {
            Err(e) => return Err(e),
            Ok(s) => s,
        };
        let prevents_charging = match parse_def::<bool>(row, 6, false, loader) {
            Err(e) => return Err(e),
            Ok(v) => v,
        };
        Ok(CommanderPowerConfig { id, name, usable_from_power, next_power, required_charge, script, prevents_charging })
    }

    fn simple_validation(&self) -> (r: Result<(), ConfigParseError>) {
        Ok(())
    }
}

} // verus!
