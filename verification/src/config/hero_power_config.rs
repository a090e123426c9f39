use vstd::prelude::*;

use crate::config::file_loader::{fp_result, input_reference, input_reference_text, spec_rhai_step, FileLoader, LoaderNames};
use crate::config::listing::{listed_from_conf, spec_listed_from_conf, Listable};
use crate::config::parse::FromConfig;
use crate::config::table::{cell, parse, parse_def, parse_vec_def, spec_parse_cell, spec_parse_vec_cell, view_result, TableHeader, TableLine, TableRow};
use crate::config::text::{spec_trim, to_string, trim};
use crate::config::{ConfigError, ConfigParseError};
use crate::units::HeroType;

verus! {

/// A script action: the function that prepares its input, if any, and the
/// function that runs it.
pub type CustomAction = (Option<usize>, usize);

/// One power of a hero.
#[derive(Debug)]
pub struct HeroPowerConfig {
    pub hero: HeroType,
    /// name of the ability
    pub name: String,
    pub usable_from_power: Vec<u8>,
    /// at the start of the player's turn, this index is switched to if
    /// possible (e.g. the hero has enough charge)
    pub next_power: u8,
    pub required_charge: u8,
    pub aura_range: i8,
    pub aura_range_transported: i8,
    pub script: Option<CustomAction>,
    pub prevents_charging: bool,
}

pub struct HeroPowerConfigView {
    pub hero: HeroType,
    pub name: Seq<char>,
    pub usable_from_power: Seq<u8>,
    pub next_power: u8,
    pub required_charge: u8,
    pub aura_range: i8,
    pub aura_range_transported: i8,
    pub script: Option<CustomAction>,
    pub prevents_charging: bool,
}

impl View for HeroPowerConfig {
    type V = HeroPowerConfigView;

    open spec fn view(&self) -> HeroPowerConfigView {
        HeroPowerConfigView {
            hero: self.hero,
            name: self.name@,
            usable_from_power: self.usable_from_power@,
            next_power: self.next_power,
            required_charge: self.required_charge,
            aura_range: self.aura_range,
            aura_range_transported: self.aura_range_transported,
            script: self.script,
            prevents_charging: self.prevents_charging,
        }
    }
}

/// The columns of the hero power table.
#[derive(Debug, Clone, Copy, PartialEq, Eq, Structural, Hash)]
pub enum HeroPowerConfigHeader {
    Hero,
    Name,
    UsableFromPowers,
    NextPower,
    RequiredCharge,
    AuraRange,
    AuraRangeTransported,
    Script,
    PreventsCharging,
}

impl Listable for HeroPowerConfigHeader {
    open spec fn spec_list() -> Seq<Self> {
        seq![
            Self::Hero,
            Self::Name,
            Self::UsableFromPowers,
            Self::NextPower,
            Self::RequiredCharge,
            Self::AuraRange,
            Self::AuraRangeTransported,
            Self::Script,
            Self::PreventsCharging,
        ]
    }

    open spec fn spec_name(self) -> Seq<char> {
        match self {
            Self::Hero => "Hero"@,
            Self::Name => "Name"@,
            Self::UsableFromPowers => "UsableFromPowers"@,
            Self::NextPower => "NextPower"@,
            Self::RequiredCharge => "RequiredCharge"@,
            Self::AuraRange => "AuraRange"@,
            Self::AuraRangeTransported => "AuraRangeTransported"@,
            Self::Script => "Script"@,
            Self::PreventsCharging => "PreventsCharging"@,
        }
    }

    open spec fn spec_kind_name() -> Seq<char> {
        "HeroPowerConfigHeader"@
    }

    fn list() -> (r: Vec<Self>) {
        vec![
            Self::Hero,
            Self::Name,
            Self::UsableFromPowers,
            Self::NextPower,
            Self::RequiredCharge,
            Self::AuraRange,
            Self::AuraRangeTransported,
            Self::Script,
            Self::PreventsCharging,
        ]
    }

    fn name(&self) -> (r: &'static str) {
        match self {
            Self::Hero => "Hero",
            Self::Name => "Name",
            Self::UsableFromPowers => "UsableFromPowers",
            Self::NextPower => "NextPower",
            Self::RequiredCharge => "RequiredCharge",
            Self::AuraRange => "AuraRange",
            Self::AuraRangeTransported => "AuraRangeTransported",
            Self::Script => "Script",
            Self::PreventsCharging => "PreventsCharging",
        }
    }

    fn kind_name() -> (r: &'static str) {
        "HeroPowerConfigHeader"
    }
}

impl FromConfig for HeroPowerConfigHeader {
    open spec fn spec_from_conf(s: Seq<char>, names: LoaderNames) -> Result<(Self, Seq<char>), ConfigError> {
        spec_listed_from_conf::<Self>(s)
    }

    fn from_conf<'a>(s: &'a [char], loader: &FileLoader) -> (r: Result<(Self, &'a [char]), ConfigParseError>) {
        listed_from_conf(s)
    }
}

impl TableHeader for HeroPowerConfigHeader {
    open spec fn spec_takes_custom() -> bool {
        false
    }

    fn takes_custom() -> (b: bool) {
        false
    }

    open spec fn spec_column(self) -> nat {
        match self {
            Self::Hero => 0,
            Self::Name => 1,
            Self::UsableFromPowers => 2,
            Self::NextPower => 3,
            Self::RequiredCharge => 4,
            Self::AuraRange => 5,
            Self::AuraRangeTransported => 6,
            Self::Script => 7,
            Self::PreventsCharging => 8,
        }
    }

    open spec fn spec_count() -> nat {
        9
    }

    fn column(self) -> (r: usize) {
        match self {
            Self::Hero => 0,
            Self::Name => 1,
            Self::UsableFromPowers => 2,
            Self::NextPower => 3,
            Self::RequiredCharge => 4,
            Self::AuraRange => 5,
            Self::AuraRangeTransported => 6,
            Self::Script => 7,
            Self::PreventsCharging => 8,
        }
    }

    fn count() -> (r: usize) {
        9
    }
}

/// The script of a power in column `key`: none for a missing or empty
/// cell; otherwise the function named in the cell, with zero or one
/// parameter, and, where it takes one, its `_input` function without
/// parameters.
pub open spec fn spec_power_script(row: Seq<Option<Seq<char>>>, key: int, names: LoaderNames) -> (Result<Option<CustomAction>, ConfigError>, LoaderNames) {
    match cell(row, key) {
        Some(s) if s.len() > 0 => {
            let (exe, n1) = spec_rhai_step(names, s, 0, 1);
            match exe {
                Err(e) => (Err(e), n1),
                Ok(exe) => if exe.parameter_count > 0 {
                    let (input, n2) = spec_rhai_step(n1, input_reference(s), 0, 0);
                    match input {
                        Err(e) => (Err(e), n2),
                        Ok(input) => (Ok(Some((Some(input.index), exe.index))), n2),
                    }
                } else {
                    (Ok(Some((None, exe.index))), n1)
                },
            }
        },
        _ => (Ok(None), names),
    }
}

/// The other columns of a hero power, read in order; the first error
/// wins. Note that `aura_range_transported` is read from the `AuraRange`
/// column, with -9 where that cell is missing or empty.
pub open spec fn spec_power_fields(row: Seq<Option<Seq<char>>>, names: LoaderNames, script: Option<CustomAction>) -> Result<HeroPowerConfigView, ConfigError> {
    match spec_parse_cell::<HeroType>(row, 0, None, names) {
        Err(e) => Err(e),
        Ok(hero) => match cell(row, 1) {
            None => Err(ConfigError::MissingColumn(1)),
            Some(name) => match spec_parse_vec_cell::<u8>(row, 2, Some(seq![]), names) {
                Err(e) => Err(e),
                Ok(usable_from_power) => match spec_parse_cell::<u8>(row, 3, Some(0u8), names) {
                    Err(e) => Err(e),
                    Ok(next_power) => match spec_parse_cell::<u8>(row, 4, Some(0u8), names) {
                        Err(e) => Err(e),
                        Ok(required_charge) => match spec_parse_cell::<i8>(row, 5, Some(0i8), names) {
                            Err(e) => Err(e),
                            Ok(aura_range) => match spec_parse_cell::<i8>(row, 5, Some(-9i8), names) {
                                Err(e) => Err(e),
                                Ok(aura_range_transported) => match spec_parse_cell::<bool>(row, 8, Some(false), names) {
                                    Err(e) => Err(e),
                                    Ok(prevents_charging) => Ok(HeroPowerConfigView {
                                        hero,
                                        name: spec_trim(name),
                                        usable_from_power,
                                        next_power,
                                        required_charge,
                                        aura_range,
                                        aura_range_transported,
                                        script,
                                        prevents_charging,
                                    }),
                                },
                            },
                        },
                    },
                },
            },
        },
    }
}

impl HeroPowerConfig {
    pub(crate) fn parse_script(row: &TableRow, key: usize, loader: &mut FileLoader) -> (r: Result<Option<CustomAction>, ConfigParseError>)
        ensures
            (match r { Ok(v) => Ok(v), Err(e) => Err(e@) }, final(loader)@) == spec_power_script(row@, key as int, old(loader)@),
    {
        match row.get(key) {
            Some(s) => {
                if s.len() > 0 {
                    let exe = loader.rhai_function(s, 0, 1);
                    match exe {
                        Err(e) => Err(e),
                        Ok(exe) => {
                            if exe.parameter_count > 0 {
                                let input_name = input_reference_text(s);
                                match loader.rhai_function(input_name.as_slice(), 0, 0) {
                                    Err(e) => Err(e),
                                    Ok(input) => Ok(Some((Some(input.index), exe.index))),
                                }
                            } else {
                                Ok(Some((None, exe.index)))
                            }
                        },
                    }
                } else {
                    Ok(None)
                }
            },
            None => Ok(None),
        }
    }

    /// The name of the power.
    pub fn get_name(&self) -> (r: &str)
        ensures
            r@ == self.name@,
    {
        self.name.as_str()
    }

    /// The script the power runs.
    pub fn get_script(&self) -> (r: Option<CustomAction>)
        ensures
            r == self.script,
    {
        self.script
    }
}

impl TableLine for HeroPowerConfig {
    type Header = HeroPowerConfigHeader;

    open spec fn spec_parse(row: Seq<Option<Seq<char>>>, custom: Seq<(Seq<char>, Seq<char>)>, names: LoaderNames) -> (Result<HeroPowerConfigView, ConfigError>, LoaderNames) {
        let (script, n) = spec_power_script(row, 7, names);
        match script {
            Err(e) => (Err(e), n),
            Ok(script) => (spec_power_fields(row, n, script), n),
        }
    }

    open spec fn spec_validation(line: HeroPowerConfigView) -> Result<(), ConfigError> {
        Ok(())
    }

    fn parse(row: &TableRow, loader: &mut FileLoader) -> (r: Result<Self, ConfigParseError>) {
        let script = match Self::parse_script(row, 7, loader) {
            Err(e) => return Err(e),
            Ok(s) => s,
        };
        let hero = match parse::<HeroType>(row, 0, loader) {
            Err(e) => return Err(e),
            Ok(h) => h,
        };
        let name = match row.get(1) {
            None => return Err(ConfigParseError::MissingColumn(1)),
            Some(n) => to_string(trim(n)),
        };
        let usable_from_power = match parse_vec_def::<u8>(row, 2, Vec::new(), loader) {
            Err(e) => return Err(e),
            Ok(v) => v,
        };
        let next_power = match parse_def::<u8>(row, 3, 0, loader) {
            Err(e) => return Err(e),
            Ok(v) => v,
        };
        let required_charge = match parse_def::<u8>(row, 4, 0, loader) {
            Err(e) => return Err(e),
            Ok(v) => v,
        };
        let aura_range = match parse_def::<i8>(row, 5, 0, loader) {
            Err(e) => return Err(e),
            Ok(v) => v,
        };
        let aura_range_transported = match parse_def::<i8>(row, 5, -9, loader) {
            Err(e) => return Err(e),
            Ok(v) => v,
        };
        let prevents_charging = match parse_def::<bool>(row, 8, false, loader) {
            Err(e) => return Err(e),
            Ok(v) => v,
        };
        Ok(HeroPowerConfig {
            hero,
            name,
            usable_from_power,
            next_power,
            required_charge,
            aura_range,
            aura_range_transported,
            script,
            prevents_charging,
        })
    }

    fn simple_validation(&self) -> (r: Result<(), ConfigParseError>) {
        Ok(())
    }
}

} // verus!
