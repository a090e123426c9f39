use vstd::prelude::*;

use crate::config::file_loader::{input_reference, input_reference_text, spec_rhai_step, FileLoader, LoaderNames};
use crate::config::listing::{listed_from_conf, spec_listed_from_conf, str_chars, Listable};
use crate::config::parse::FromConfig;
use crate::config::table::{cell, parse_def, spec_parse_cell, TableHeader, TableLine, TableRow};
use crate::config::text::{spec_trim, to_string, trim};
use crate::config::{ConfigError, ConfigParseError};
use crate::units::UnitVisibility;

verus! {

/// A kind of token that can lie on the map.
#[derive(Debug)]
pub struct TokenTypeConfig {
    pub name: String,
    pub can_have_owner: bool,
    pub owner_is_playable: bool,
    pub visibility: UnitVisibility,
    pub vision_range: i8,
    /// the script functions that prepare and run the token's action
    pub action_script: Option<(usize, usize)>,
    /// the script function that runs when a unit passes the token
    pub on_unit_path: Option<usize>,
}

pub struct TokenTypeConfigView {
    pub name: Seq<char>,
    pub can_have_owner: bool,
    pub owner_is_playable: bool,
    pub visibility: UnitVisibility,
    pub vision_range: i8,
    pub action_script: Option<(usize, usize)>,
    pub on_unit_path: Option<usize>,
}

impl View for TokenTypeConfig {
    type V = TokenTypeConfigView;

    open spec fn view(&self) -> TokenTypeConfigView {
        TokenTypeConfigView {
            name: self.name@,
            can_have_owner: self.can_have_owner,
            owner_is_playable: self.owner_is_playable,
            visibility: self.visibility,
            vision_range: self.vision_range,
            action_script: self.action_script,
            on_unit_path: self.on_unit_path,
        }
    }
}

/// The columns of the token table.
#[derive(Debug, Clone, Copy, PartialEq, Eq, Structural, Hash)]
pub enum TokenTypeConfigHeader {
    Id,
    Ownable,
    OwnerPlayable,
    Visibility,
    VisionRange,
    ActionScript,
    OnUnitPath,
}

impl Listable for TokenTypeConfigHeader {
    open spec fn spec_list() -> Seq<Self> {
        seq![Self::Id, Self::Ownable, Self::OwnerPlayable, Self::Visibility, Self::VisionRange, Self::ActionScript, Self::OnUnitPath]
    }

    open spec fn spec_name(self) -> Seq<char> {
        match self {
            Self::Id => "Id"@,
            Self::Ownable => "Ownable"@,
            Self::OwnerPlayable => "OwnerPlayable"@,
            Self::Visibility => "Visibility"@,
            Self::VisionRange => "VisionRange"@,
            Self::ActionScript => "ActionScript"@,
            Self::OnUnitPath => "OnUnitPath"@,
        }
    }

    open spec fn spec_kind_name() -> Seq<char> {
        "TokenTypeConfigHeader"@
    }

    fn list() -> (r: Vec<Self>) {
        vec![Self::Id, Self::Ownable, Self::OwnerPlayable, Self::Visibility, Self::VisionRange, Self::ActionScript, Self::OnUnitPath]
    }

    fn name(&self) -> (r: &'static str) {
        match self {
            Self::Id => "Id",
            Self::Ownable => "Ownable",
            Self::OwnerPlayable => "OwnerPlayable",
            Self::Visibility => "Visibility",
            Self::VisionRange => "VisionRange",
            Self::ActionScript => "ActionScript",
            Self::OnUnitPath => "OnUnitPath",
        }
    }

    fn kind_name() -> (r: &'static str) {
        "TokenTypeConfigHeader"
    }
}

impl FromConfig for TokenTypeConfigHeader {
    open spec fn spec_from_conf(s: Seq<char>, names: LoaderNames) -> Result<(Self, Seq<char>), ConfigError> {
        spec_listed_from_conf::<Self>(s)
    }

    fn from_conf<'a>(s: &'a [char], loader: &FileLoader) -> (r: Result<(Self, &'a [char]), ConfigParseError>) {
        listed_from_conf(s)
    }
}

impl TableHeader for TokenTypeConfigHeader {
    open spec fn spec_takes_custom() -> bool {
        false
    }

    fn takes_custom() -> (b: bool) {
        false
    }

    open spec fn spec_column(self) -> nat {
        match self {
            Self::Id => 0,
            Self::Ownable => 1,
            Self::OwnerPlayable => 2,
            Self::Visibility => 3,
            Self::VisionRange => 4,
            Self::ActionScript => 5,
            Self::OnUnitPath => 6,
        }
    }

    open spec fn spec_count() -> nat {
        7
    }

    fn column(self) -> (r: usize) {
        match self {
            Self::Id => 0,
            Self::Ownable => 1,
            Self::OwnerPlayable => 2,
            Self::Visibility => 3,
            Self::VisionRange => 4,
            Self::ActionScript => 5,
            Self::OnUnitPath => 6,
        }
    }

    fn count() -> (r: usize) {
        7
    }
}

/// The columns without scripts: the name is the `Id` cell as it stands;
/// a missing `Visibility` column means `Normal`, but a present cell must
/// name a visibility.
pub open spec fn spec_token_fields(row: Seq<Option<Seq<char>>>, names: LoaderNames) -> Result<(Seq<char>, bool, bool, UnitVisibility, i8), ConfigError> {
    match cell(row, 0) {
        None => Err(ConfigError::MissingColumn(0)),
        Some(name) => match spec_parse_cell::<bool>(row, 1, Some(false), names) {
            Err(e) => Err(e),
            Ok(can_have_owner) => match spec_parse_cell::<bool>(row, 2, Some(false), names) {
                Err(e) => Err(e),
                Ok(owner_is_playable) => match (match cell(row, 3) {
                    Some(s) => match UnitVisibility::spec_from_conf(s, names) {
                        Ok((v, _)) => Ok(v),
                        Err(e) => Err(e),
                    },
                    None => Ok(UnitVisibility::Normal),
                }) {
                    Err(e) => Err(e),
                    Ok(visibility) => match spec_parse_cell::<i8>(row, 4, Some(-1i8), names) {
                        Err(e) => Err(e),
                        Ok(vision_range) => Ok((name, can_have_owner, owner_is_playable, visibility, vision_range)),
                    },
                },
            },
        },
    }
}

/// The action script: none for a missing or empty cell; otherwise the
/// function named there, with one parameter, and its `_input` function
/// without parameters.
pub open spec fn spec_action_script(row: Seq<Option<Seq<char>>>, names: LoaderNames) -> (Result<Option<(usize, usize)>, ConfigError>, LoaderNames) {
    match cell(row, 5) {
        Some(s) if s.len() > 0 => {
            let (exe, n1) = spec_rhai_step(names, s, 1, 1);
            match exe {
                Err(e) => (Err(e), n1),
                Ok(exe) => {
                    let (input, n2) = spec_rhai_step(n1, input_reference(s), 0, 0);
                    match input {
                        Err(e) => (Err(e), n2),
                        Ok(input) => (Ok(Some((input.index, exe.index))), n2),
                    }
                },
            }
        },
        _ => (Ok(None), names),
    }
}

/// The script run when a unit passes the token: none for a missing or
/// empty cell; otherwise the function named there, with two parameters.
pub open spec fn spec_on_unit_path(row: Seq<Option<Seq<char>>>, names: LoaderNames) -> (Result<Option<usize>, ConfigError>, LoaderNames) {
    match cell(row, 6) {
        Some(s) if s.len() > 0 => {
            let (f, n1) = spec_rhai_step(names, s, 2, 2);
            match f {
                Err(e) => (Err(e), n1),
                Ok(f) => (Ok(Some(f.index)), n1),
            }
        },
        _ => (Ok(None), names),
    }
}

impl TokenTypeConfig {
    fn parse_action_script(row: &TableRow, loader: &mut FileLoader) -> (r: Result<Option<(usize, usize)>, ConfigParseError>)
        ensures
            (match r { Ok(v) => Ok(v), Err(e) => Err(e@) }, final(loader)@) == spec_action_script(row@, old(loader)@),
    {
        match row.get(5) {
            Some(s) => {
                if s.len() > 0 {
                    match loader.rhai_function(s, 1, 1) {
                        Err(e) => Err(e),
                        Ok(exe) => {
                            let input_name = input_reference_text(s);
                            match loader.rhai_function(input_name.as_slice(), 0, 0) {
                                Err(e) => Err(e),
                                Ok(input) => Ok(Some((input.index, exe.index))),
                            }
                        },
                    }
                } else {
                    Ok(None)
                }
            },
            None => Ok(None),
        }
    }

    fn parse_on_unit_path(row: &TableRow, loader: &mut FileLoader) -> (r: Result<Option<usize>, ConfigParseError>)
        ensures
            (match r { Ok(v) => Ok(v), Err(e) => Err(e@) }, final(loader)@) == spec_on_unit_path(row@, old(loader)@),
    {
        match row.get(6) {
            Some(s) => {
                if s.len() > 0 {
                    match loader.rhai_function(s, 2, 2) {
                        Err(e) => Err(e),
                        Ok(f) => Ok(Some(f.index)),
                    }
                } else {
                    Ok(None)
                }
            },
            None => Ok(None),
        }
    }
}

impl TableLine for TokenTypeConfig {
    type Header = TokenTypeConfigHeader;

    /// The plain columns first, then the action script, then the script
    /// for units passing by; the first error wins.
    open spec fn spec_parse(row: Seq<Option<Seq<char>>>, custom: Seq<(Seq<char>, Seq<char>)>, names: LoaderNames) -> (Result<TokenTypeConfigView, ConfigError>, LoaderNames) {
        match spec_token_fields(row, names) {
            Err(e) => (Err(e), names),
            Ok((name, can_have_owner, owner_is_playable, visibility, vision_range)) => {
                let (action, n1) = spec_action_script(row, names);
                match action {
                    Err(e) => (Err(e), n1),
                    Ok(action_script) => {
                        let (path, n2) = spec_on_unit_path(row, n1);
                        match path {
                            Err(e) => (Err(e), n2),
                            Ok(on_unit_path) => (Ok(TokenTypeConfigView {
                                name,
                                can_have_owner,
                                owner_is_playable,
                                visibility,
                                vision_range,
                                action_script,
                                on_unit_path,
                            }), n2),
                        }
                    },
                }
            },
        }
    }

    /// The name must hold more than whitespace.
    open spec fn spec_validation(line: TokenTypeConfigView) -> Result<(), ConfigError> {
        if spec_trim(line.name).len() == 0 {
            Err(ConfigError::NameTooShort)
        } else {
            Ok(())
        }
    }

    fn parse(row: &TableRow, loader: &mut FileLoader) -> (r: Result<Self, ConfigParseError>) {
        let name = match row.get(0) {
            None => return Err(ConfigParseError::MissingColumn(0)),
            Some(n) => to_string(n),
        };
        let can_have_owner = match parse_def::<bool>(row, 1, false, loader) {
            Err(e) => return Err(e),
            Ok(v) => v,
        };
        let owner_is_playable = match parse_def::<bool>(row, 2, false, loader) {
            Err(e) => return Err(e),
            Ok(v) => v,
        };
        let visibility = match row.get(3) {
            Some(s) => match UnitVisibility::from_conf(s, loader) {
                Err(e) => return Err(e),
                Ok((v, _)) => v,
            },
            None => UnitVisibility::Normal,
        };
        let vision_range = match parse_def::<i8>(row, 4, -1, loader) {
            Err(e) => return Err(e),
            Ok(v) => v,
        };
        let action_script = match Self::parse_action_script(row, loader) {
            Err(e) => return Err(e),
            Ok(v) => v,
        };
        let on_unit_path = match Self::parse_on_unit_path(row, loader) {
            Err(e) => return Err(e),
            Ok(v) => v,
        };
        Ok(TokenTypeConfig {
            name,
            can_have_owner,
            owner_is_playable,
            visibility,
            vision_range,
            action_script,
            on_unit_path,
        })
    }

    fn simple_validation(&self) -> (r: Result<(), ConfigParseError>) {
        let n = str_chars(self.name.as_str());
        if trim(n.as_slice()).len() == 0 {
            Err(ConfigParseError::NameTooShort)
        } else {
            Ok(())
        }
    }
}

} // verus!
