use vstd::prelude::*;

use crate::config::file_loader::{spec_rhai_step, FileLoader, LoaderNames};
use crate::config::listing::{framed_text, is_word, listed_from_conf, qualified, qualified_text, spec_listed_from_conf, str_chars, Listable};
use crate::config::parse::{close_tuple, open_tuple, parse_tuple1, parse_tuple2, spec_close_tuple, spec_open_tuple, spec_parse_tuple1, spec_parse_tuple2, spec_string_base, spec_string_from_conf, string_base, string_from_conf, FromConfig};
use crate::config::table::{cell, parse_def, spec_parse_cell, TableHeader, TableLine, TableRow};
use crate::config::text::{spec_to_lowercase, spec_trim, text_eq, to_lowercase, to_string, trim};
use crate::config::{ConfigError, ConfigParseError};
use crate::fog::FogIntensity;
use crate::tags::{FlagKey, TagKey};

verus! {

/// The kind of data an effect carries.
#[derive(Debug, PartialEq, Eq, Clone, Copy, Structural)]
pub enum EffectDataType {
    Int { min: i32, max: i32 },
    Direction,
    Terrain,
    Token,
    Unit,
    Visibility,
    Team,
}

/// The data type named in an effect's `DataType` column: the first word,
/// trimmed and in lower case; an empty word means no data, and `int` is
/// followed by its minimum and maximum.
pub open spec fn spec_effect_data_type(column: Seq<char>, names: LoaderNames) -> Result<Option<EffectDataType>, ConfigError> {
    let (word, rest) = spec_string_base(spec_trim(column));
    let kind = spec_to_lowercase(word);
    if kind == ""@ {
        Ok(None)
    } else if kind == "int"@ {
        match spec_parse_tuple2::<i32, i32>(rest, names) {
            Err(e) => Err(e),
            Ok((min, max, _)) => Ok(Some(EffectDataType::Int { min, max })),
        }
    } else if kind == "direction"@ {
        Ok(Some(EffectDataType::Direction))
    } else if kind == "terrain"@ {
        Ok(Some(EffectDataType::Terrain))
    } else if kind == "token"@ {
        Ok(Some(EffectDataType::Token))
    } else if kind == "unit"@ {
        Ok(Some(EffectDataType::Unit))
    } else if kind == "visibility"@ {
        Ok(Some(EffectDataType::Visibility))
    } else if kind == "team"@ {
        Ok(Some(EffectDataType::Team))
    } else {
        Err(ConfigError::UnknownEnumMember(qualified("EffectDataType"@, kind, None)))
    }
}

/// Reads the data type of an effect from its `DataType` column.
pub fn effect_data_type(column: &[char], loader: &FileLoader) -> (r: Result<Option<EffectDataType>, ConfigParseError>)
    ensures
        match r {
            Ok(t) => spec_effect_data_type(column@, loader@) == Ok::<Option<EffectDataType>, ConfigError>(t),
            Err(e) => spec_effect_data_type(column@, loader@) == Err::<Option<EffectDataType>, ConfigError>(e@),
        },
{
    let (word, rest) = string_base(trim(column));
    let kind = to_lowercase(word);
    let k = kind.as_slice();
    if is_word(k, "") {
        Ok(None)
    } else if is_word(k, "int") {
        match parse_tuple2::<i32, i32>(rest, loader) {
            Err(e) => Err(e),
            Ok((min, max, _)) => Ok(Some(EffectDataType::Int { min, max })),
        }
    } else if is_word(k, "direction") {
        Ok(Some(EffectDataType::Direction))
    } else if is_word(k, "terrain") {
        Ok(Some(EffectDataType::Terrain))
    } else if is_word(k, "token") {
        Ok(Some(EffectDataType::Token))
    } else if is_word(k, "unit") {
        Ok(Some(EffectDataType::Unit))
    } else if is_word(k, "visibility") {
        Ok(Some(EffectDataType::Visibility))
    } else if is_word(k, "team") {
        Ok(Some(EffectDataType::Team))
    } else {
        Err(ConfigParseError::UnknownEnumMember(qualified_text("EffectDataType", k, None)))
    }
}

/// Who gets to see an effect.
#[derive(Debug, Clone, Copy, PartialEq, Eq, Structural)]
pub enum EffectVisibility {
    /// decided by the script function with this index
    Rhai(usize),
    Full,
    CurrentTeam,
    Data,
    Unit,
    UnitFlag(FlagKey),
    UnitTag(TagKey),
    Fog(FogIntensity),
}

/// An effect's visibility as the configuration writes it: a word, and for
/// scripts, flags, tags and fog the value in brackets after it.
pub open spec fn spec_effect_visibility_from_conf(s: Seq<char>, names: LoaderNames) -> (Result<(EffectVisibility, Seq<char>), ConfigError>, LoaderNames) {
    let (base, rest) = spec_string_base(s);
    if base == "Rhai"@ || base == "Script"@ {
        let (t, bracketed) = spec_open_tuple(rest);
        let (name, after) = spec_string_from_conf(t);
        let rest2 = spec_close_tuple(after, bracketed);
        let (f, n) = spec_rhai_step(names, name, 0, 0);
        (match f {
            Ok(p) => Ok((EffectVisibility::Rhai(p.index), rest2)),
            Err(e) => Err(e),
        }, n)
    } else if base == "Full"@ {
        (Ok((EffectVisibility::Full, rest)), names)
    } else if base == "CurrentTeam"@ {
        (Ok((EffectVisibility::CurrentTeam, rest)), names)
    } else if base == "Data"@ {
        (Ok((EffectVisibility::Data, rest)), names)
    } else if base == "Unit"@ {
        (Ok((EffectVisibility::Unit, rest)), names)
    } else if base == "UnitFlag"@ {
        (match spec_parse_tuple1::<FlagKey>(rest, names) {
            Ok((k, r)) => Ok((EffectVisibility::UnitFlag(k), r)),
            Err(e) => Err(e),
        }, names)
    } else if base == "UnitTag"@ {
        (match spec_parse_tuple1::<TagKey>(rest, names) {
            Ok((k, r)) => Ok((EffectVisibility::UnitTag(k), r)),
            Err(e) => Err(e),
        }, names)
    } else if base == "Fog"@ {
        (match spec_parse_tuple1::<FogIntensity>(rest, names) {
            Ok((k, r)) => Ok((EffectVisibility::Fog(k), r)),
            Err(e) => Err(e),
        }, names)
    } else {
        (Err(ConfigError::UnknownEnumMember(base)), names)
    }
}

impl EffectVisibility {
    /// Reads the visibility of an effect; a script reference gets registered
    /// with the loader.
    pub fn from_conf<'a>(s: &'a [char], loader: &mut FileLoader) -> (r: Result<(EffectVisibility, &'a [char]), ConfigParseError>)
        ensures
            (match r { Ok((v, rest)) => Ok((v, rest@)), Err(e) => Err(e@) }, final(loader)@) == spec_effect_visibility_from_conf(s@, old(loader)@),
    {
        let (base, rest) = string_base(s);
        if is_word(base, "Rhai") || is_word(base, "Script") {
            let (t, bracketed) = open_tuple(rest);
            let (name, after) = string_from_conf(t);
            let rest2 = close_tuple(after, bracketed);
            let name_chars = str_chars(name.as_str());
            match loader.rhai_function(name_chars.as_slice(), 0, 0) {
                Ok(p) => Ok((EffectVisibility::Rhai(p.index), rest2)),
                Err(e) => Err(e),
            }
        } else if is_word(base, "Full") {
            Ok((EffectVisibility::Full, rest))
        } else if is_word(base, "CurrentTeam") {
            Ok((EffectVisibility::CurrentTeam, rest))
        } else if is_word(base, "Data") {
            Ok((EffectVisibility::Data, rest))
        } else if is_word(base, "Unit") {
            Ok((EffectVisibility::Unit, rest))
        } else if is_word(base, "UnitFlag") {
            match parse_tuple1::<FlagKey>(rest, loader) {
                Ok((k, r)) => Ok((EffectVisibility::UnitFlag(k), r)),
                Err(e) => Err(e),
            }
        } else if is_word(base, "UnitTag") {
            match parse_tuple1::<TagKey>(rest, loader) {
                Ok((k, r)) => Ok((EffectVisibility::UnitTag(k), r)),
                Err(e) => Err(e),
            }
        } else if is_word(base, "Fog") {
            match parse_tuple1::<FogIntensity>(rest, loader) {
                Ok((k, r)) => Ok((EffectVisibility::Fog(k), r)),
                Err(e) => Err(e),
            }
        } else {
            Err(ConfigParseError::UnknownEnumMember(to_string(base)))
        }
    }
}

/// A kind of effect that the game shows.
#[derive(Debug)]
pub struct EffectConfig {
    pub name: String,
    pub is_global: bool,
    pub data_type: Option<EffectDataType>,
    pub visibility: EffectVisibility,
}

pub struct EffectConfigView {
    pub name: Seq<char>,
    pub is_global: bool,
    pub data_type: Option<EffectDataType>,
    pub visibility: EffectVisibility,
}

impl View for EffectConfig {
    type V = EffectConfigView;

    open spec fn view(&self) -> EffectConfigView {
        EffectConfigView { name: self.name@, is_global: self.is_global, data_type: self.data_type, visibility: self.visibility }
    }
}

/// The columns of the effect table.
#[derive(Debug, Clone, Copy, PartialEq, Eq, Structural, Hash)]
pub enum EffectConfigHeader {
    Id,
    Global,
    DataType,
    Visibility,
}

impl Listable for EffectConfigHeader {
    open spec fn spec_list() -> Seq<Self> {
        seq![Self::Id, Self::Global, Self::DataType, Self::Visibility]
    }

    open spec fn spec_name(self) -> Seq<char> {
        match self {
            Self::Id => "Id"@,
            Self::Global => "Global"@,
            Self::DataType => "DataType"@,
            Self::Visibility => "Visibility"@,
        }
    }

    open spec fn spec_kind_name() -> Seq<char> {
        "EffectConfigHeader"@
    }

    fn list() -> (r: Vec<Self>) {
        vec![Self::Id, Self::Global, Self::DataType, Self::Visibility]
    }

    fn name(&self) -> (r: &'static str) {
        match self {
            Self::Id => "Id",
            Self::Global => "Global",
            Self::DataType => "DataType",
            Self::Visibility => "Visibility",
        }
    }

    fn kind_name() -> (r: &'static str) {
        "EffectConfigHeader"
    }
}

impl FromConfig for EffectConfigHeader {
    open spec fn spec_from_conf(s: Seq<char>, names: LoaderNames) -> Result<(Self, Seq<char>), ConfigError> {
        spec_listed_from_conf::<Self>(s)
    }

    fn from_conf<'a>(s: &'a [char], loader: &FileLoader) -> (r: Result<(Self, &'a [char]), ConfigParseError>) {
        listed_from_conf(s)
    }
}

impl TableHeader for EffectConfigHeader {
    open spec fn spec_takes_custom() -> bool {
        false
    }

    fn takes_custom() -> (b: bool) {
        false
    }

    open spec fn spec_column(self) -> nat {
        match self {
            Self::Id => 0,
            Self::Global => 1,
            Self::DataType => 2,
            Self::Visibility => 3,
        }
    }

    open spec fn spec_count() -> nat {
        4
    }

    fn column(self) -> (r: usize) {
        match self {
            Self::Id => 0,
            Self::Global => 1,
            Self::DataType => 2,
            Self::Visibility => 3,
        }
    }

    fn count() -> (r: usize) {
        4
    }
}

/// Whether every character of `name` is `_` or an ASCII letter or digit.
pub open spec fn plain_name(name: Seq<char>) -> bool {
    forall|i: int| 0 <= i < name.len() ==> {
        let c = #[trigger] name[i];
        c == '_' || ('a' <= c <= 'z') || ('A' <= c <= 'Z') || ('0' <= c <= '9')
    }
}

fn is_plain_name(name: &[char]) -> (b: bool)
    ensures
        b == plain_name(name@),
{
    let mut i: usize = 0;
    while i < name.len()
        invariant
            i <= name@.len(),
            forall|j: int| 0 <= j < i ==> {
                let c = #[trigger] name@[j];
                c == '_' || ('a' <= c <= 'z') || ('A' <= c <= 'Z') || ('0' <= c <= '9')
            },
        decreases name.len() - i,
    {
        let c = name[i];
        if !(c == '_' || ('a' <= c && c <= 'z') || ('A' <= c && c <= 'Z') || ('0' <= c && c <= '9')) {
            return false;
        }
        i += 1;
    }
    true
}

impl TableLine for EffectConfig {
    type Header = EffectConfigHeader;

    /// The trimmed name, the data type, whether it is global (no by
    /// default) and its visibility, which must be given.
    open spec fn spec_parse(row: Seq<Option<Seq<char>>>, custom: Seq<(Seq<char>, Seq<char>)>, names: LoaderNames) -> (Result<EffectConfigView, ConfigError>, LoaderNames) {
        match cell(row, 0) {
            None => (Err(ConfigError::MissingColumn(0)), names),
            Some(id) => match cell(row, 2) {
                None => (Err(ConfigError::MissingColumn(2)), names),
                Some(dt) => match spec_effect_data_type(dt, names) {
                    Err(e) => (Err(e), names),
                    Ok(data_type) => match spec_parse_cell::<bool>(row, 1, Some(false), names) {
                        Err(e) => (Err(e), names),
                        Ok(is_global) => match cell(row, 3) {
                            None => (Err(ConfigError::MissingColumn(3)), names),
                            Some(v) => {
                                let (r, n) = spec_effect_visibility_from_conf(v, names);
                                (match r {
                                    Err(e) => Err(e),
                                    Ok((visibility, _)) => Ok(EffectConfigView { name: spec_trim(id), is_global, data_type, visibility }),
                                }, n)
                            },
                        },
                    },
                },
            },
        }
    }

    /// The name must not be empty and may only hold `_` and ASCII letters
    /// and digits; an integer effect's minimum must lie below its maximum.
    open spec fn spec_validation(line: EffectConfigView) -> Result<(), ConfigError> {
        if line.name.len() == 0 {
            Err(ConfigError::NameTooShort)
        } else if !plain_name(line.name) {
            Err(ConfigError::Other("Effect ("@ + line.name + "): Name can only contain ASCII letters, digits and '_'"@))
        } else {
            match line.data_type {
                Some(EffectDataType::Int { min, max }) => if min >= max {
                    Err(ConfigError::Other("Effect DataType "@ + line.name + "'s minimum needs to be lower than maximum"@))
                } else {
                    Ok(())
                },
                _ => Ok(()),
            }
        }
    }

    fn parse(row: &TableRow, loader: &mut FileLoader) -> (r: Result<Self, ConfigParseError>) {
        let name = match row.get(0) {
            None => return Err(ConfigParseError::MissingColumn(0)),
            Some(id) => to_string(trim(id)),
        };
        let data_type = match row.get(2) {
            None => return Err(ConfigParseError::MissingColumn(2)),
            Some(dt) => match effect_data_type(dt, loader) {
                Err(e) => return Err(e),
                Ok(t) => t,
            },
        };
        let is_global = match parse_def::<bool>(row, 1, false, loader) {
            Err(e) => return Err(e),
            Ok(v) => v,
        };
        let visibility = match row.get(3) {
            None => return Err(ConfigParseError::MissingColumn(3)),
            Some(v) => match EffectVisibility::from_conf(v, loader) {
                Err(e) => return Err(e),
                Ok((vis, _)) => vis,
            },
        };
        Ok(EffectConfig { name, is_global, data_type, visibility })
    }

    fn simple_validation(&self) -> (r: Result<(), ConfigParseError>) {
        let n = str_chars(self.name.as_str());
        if n.len() == 0 {
            return Err(ConfigParseError::NameTooShort);
        }
        if !is_plain_name(n.as_slice()) {
            return Err(ConfigParseError::Other(framed_text("Effect (", n.as_slice(), "): Name can only contain ASCII letters, digits and '_'")));
        }
        match self.data_type {
            Some(EffectDataType::Int { min, max }) => {
                if min >= max {
                    return Err(ConfigParseError::Other(framed_text("Effect DataType ", n.as_slice(), "'s minimum needs to be lower than maximum")));
                }
                Ok(())
            },
            _ => Ok(()),
        }
    }
}

} // verus!
