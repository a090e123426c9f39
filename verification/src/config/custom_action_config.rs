use vstd::prelude::*;

use crate::config::file_loader::{input_reference, input_reference_text, spec_rhai_step, FileLoader, LoaderNames};
use crate::config::hero_power_config::CustomAction;
use crate::config::listing::{listed_from_conf, spec_listed_from_conf, str_chars, Listable};
use crate::config::parse::FromConfig;
use crate::config::table::{cell, TableHeader, TableLine, TableRow};
use crate::config::text::{spec_trim, to_string, trim};
use crate::config::unit_filter::{filters_view, spec_filter_list, UnitFilter, UnitFilterView};
use crate::config::{ConfigError, ConfigParseError};

verus! {

/// An action that units can take besides moving and attacking, run by a
/// script.
#[derive(Debug)]
pub struct CustomActionConfig {
    /// shown in the action menu
    pub name: String,
    /// the units that may take the action: those that pass every filter
    pub unit_filter: Vec<UnitFilter>,
    pub script: CustomAction,
}

pub struct CustomActionConfigView {
    pub name: Seq<char>,
    pub unit_filter: Seq<UnitFilterView>,
    pub script: CustomAction,
}

impl View for CustomActionConfig {
    type V = CustomActionConfigView;

    open spec fn view(&self) -> CustomActionConfigView {
        CustomActionConfigView { name: self.name@, unit_filter: filters_view(self.unit_filter@), script: self.script }
    }
}

/// The columns of the custom action table.
#[derive(Debug, Clone, Copy, PartialEq, Eq, Structural, Hash)]
pub enum CustomActionConfigHeader {
    Name,
    UnitFilter,
    Script,
}

impl Listable for CustomActionConfigHeader {
    open spec fn spec_list() -> Seq<Self> {
        seq![Self::Name, Self::UnitFilter, Self::Script]
    }

    open spec fn spec_name(self) -> Seq<char> {
        match self {
            Self::Name => "Name"@,
            Self::UnitFilter => "UnitFilter"@,
            Self::Script => "Script"@,
        }
    }

    open spec fn spec_kind_name() -> Seq<char> {
        "CustomActionConfigHeader"@
    }

    fn list() -> (r: Vec<Self>) {
        vec![Self::Name, Self::UnitFilter, Self::Script]
    }

    fn name(&self) -> (r: &'static str) {
        match self {
            Self::Name => "Name",
            Self::UnitFilter => "UnitFilter",
            Self::Script => "Script",
        }
    }

    fn kind_name() -> (r: &'static str) {
        "CustomActionConfigHeader"
    }
}

impl FromConfig for CustomActionConfigHeader {
    open spec fn spec_from_conf(s: Seq<char>, names: LoaderNames) -> Result<(Self, Seq<char>), ConfigError> {
        spec_listed_from_conf::<Self>(s)
    }

    fn from_conf<'a>(s: &'a [char], loader: &FileLoader) -> (r: Result<(Self, &'a [char]), ConfigParseError>) {
        listed_from_conf(s)
    }
}

impl TableHeader for CustomActionConfigHeader {
    open spec fn spec_takes_custom() -> bool {
        false
    }

    fn takes_custom() -> (b: bool) {
        false
    }

    open spec fn spec_column(self) -> nat {
        match self {
            Self::Name => 0,
            Self::UnitFilter => 1,
            Self::Script => 2,
        }
    }

    open spec fn spec_count() -> nat {
        3
    }

    fn column(self) -> (r: usize) {
        match self {
            Self::Name => 0,
            Self::UnitFilter => 1,
            Self::Script => 2,
        }
    }

    fn count() -> (r: usize) {
        3
    }
}

/// The script of an action: the function named in the cell, with zero or
/// one parameter, and, where it takes one, its `_input` function without
/// parameters. A missing or empty cell is `CustomActionScriptMissing` with
/// the action's name.
pub open spec fn spec_action_script(row: Seq<Option<Seq<char>>>, names: LoaderNames, name: Seq<char>) -> (Result<CustomAction, ConfigError>, LoaderNames) {
    match cell(row, 2) {
        Some(s) if s.len() > 0 => {
            let (exe, n1) = spec_rhai_step(names, s, 0, 1);
            match exe {
                Err(e) => (Err(e), n1),
                Ok(exe) => if exe.parameter_count > 0 {
                    let (input, n2) = spec_rhai_step(n1, input_reference(s), 0, 0);
                    match input {
                        Err(e) => (Err(e), n2),
                        Ok(input) => (Ok((Some(input.index), exe.index)), n2),
                    }
                } else {
                    (Ok((None, exe.index)), n1)
                },
            }
        },
        _ => (Err(ConfigError::CustomActionScriptMissing(name)), names),
    }
}

/// The unit filters of an action: none without the column, else the list
/// in the cell.
pub open spec fn spec_action_filters(row: Seq<Option<Seq<char>>>, names: LoaderNames) -> (Result<Seq<UnitFilterView>, ConfigError>, LoaderNames) {
    match cell(row, 1) {
        None => (Ok(seq![]), names),
        Some(v) => {
            let (r, n) = spec_filter_list(v, false, names);
            (match r {
                Ok((items, _)) => Ok(items),
                Err(e) => Err(e),
            }, n)
        },
    }
}

impl CustomActionConfig {
    fn parse_script(row: &TableRow, loader: &mut FileLoader, name: &String) -> (r: Result<CustomAction, ConfigParseError>)
        ensures
            (match r { Ok(v) => Ok(v), Err(e) => Err(e@) }, final(loader)@) == spec_action_script(row@, old(loader)@, name@),
    {
        match row.get(2) {
            Some(s) => {
                if s.len() > 0 {
                    match loader.rhai_function(s, 0, 1) {
                        Err(e) => Err(e),
                        Ok(exe) => {
                            if exe.parameter_count > 0 {
                                let input_name = input_reference_text(s);
                                match loader.rhai_function(input_name.as_slice(), 0, 0) {
                                    Err(e) => Err(e),
                                    Ok(input) => Ok((Some(input.index), exe.index)),
                                }
                            } else {
                                Ok((None, exe.index))
                            }
                        },
                    }
                } else {
                    Err(ConfigParseError::CustomActionScriptMissing(name.clone()))
                }
            },
            None => Err(ConfigParseError::CustomActionScriptMissing(name.clone())),
        }
    }

    fn parse_filters(row: &TableRow, loader: &mut FileLoader) -> (r: Result<Vec<UnitFilter>, ConfigParseError>)
        ensures
            (match r { Ok(v) => Ok(filters_view(v@)), Err(e) => Err(e@) }, final(loader)@) == spec_action_filters(row@, old(loader)@),
    {
        match row.get(1) {
            None => {
                let v: Vec<UnitFilter> = Vec::new();
                assert(filters_view(v@) =~= seq![]);
                Ok(v)
            },
            Some(text) => match UnitFilter::filter_list(text, false, loader) {
                Ok((items, _)) => Ok(items),
                Err(e) => Err(e),
            },
        }
    }

    /// The name shown in the action menu.
    pub fn get_name(&self) -> (r: &str)
        ensures
            r@ == self.name@,
    {
        self.name.as_str()
    }

    /// The script the action runs.
    pub fn get_script(&self) -> (r: CustomAction)
        ensures
            r == self.script,
    {
        self.script
    }
}

impl TableLine for CustomActionConfig {
    type Header = CustomActionConfigHeader;

    /// The name is the `Name` cell as it stands (the column is needed),
    /// then the script is read, then the unit filters.
    open spec fn spec_parse(row: Seq<Option<Seq<char>>>, custom: Seq<(Seq<char>, Seq<char>)>, names: LoaderNames) -> (Result<CustomActionConfigView, ConfigError>, LoaderNames) {
        match cell(row, 0) {
            None => (Err(ConfigError::MissingColumn(0)), names),
            Some(name) => {
                let (script, n1) = spec_action_script(row, names, name);
                match script {
                    Err(e) => (Err(e), n1),
                    Ok(script) => {
                        let (filters, n2) = spec_action_filters(row, n1);
                        (match filters {
                            Err(e) => Err(e),
                            Ok(unit_filter) => Ok(CustomActionConfigView { name, unit_filter, script }),
                        }, n2)
                    },
                }
            },
        }
    }

    /// The name must hold more than whitespace.
    open spec fn spec_validation(line: CustomActionConfigView) -> Result<(), ConfigError> {
        if spec_trim(line.name).len() == 0 {
            Err(ConfigError::NameTooShort)
        } else {
            Ok(())
        }
    }

    fn parse(row: &TableRow, loader: &mut FileLoader) -> (r: Result<Self, ConfigParseError>) {
        let name = match row.get(0) {
            None => return Err(ConfigParseError::MissingColumn(0)),
            Some(n) => to_string(n),
        };
        let script = match Self::parse_script(row, loader, &name) {
            Err(e) => return Err(e),
            Ok(s) => s,
        };
        let unit_filter = match Self::parse_filters(row, loader) {
            Err(e) => return Err(e),
            Ok(f) => f,
        };
        Ok(CustomActionConfig { name, unit_filter, script })
    }

    fn simple_validation(&self) -> (r: Result<(), ConfigParseError>) {
        let n = str_chars(self.name.as_str());
        if trim(n.as_slice()).len() == 0 {
            Err(ConfigParseError::NameTooShort)
        } else {
            Ok(())
        }
    }
}

} // verus!
