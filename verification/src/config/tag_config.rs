use vstd::prelude::*;

use crate::config::editor_tag_config::TagEditorVisibility;
use crate::config::file_loader::{FileLoader, LoaderNames};
use crate::config::listing::{is_word, framed_text, listed_from_conf, qualified, qualified_text, spec_listed_from_conf, str_chars, Listable};
use crate::config::parse::{spec_string_from_conf, string_from_conf, FromConfig};
use crate::config::table::{cell, parse_def, spec_parse_cell, TableHeader, TableLine, TableRow};
use crate::config::text::{spec_to_lowercase, spec_trim, text_eq, to_lowercase, to_string, trim};
use crate::config::{ConfigError, ConfigParseError};
use crate::units::UnitVisibility;

verus! {

/// A flag or a tag that units, terrain and tokens can carry.
#[derive(Debug)]
pub struct TagConfig {
    pub name: String,
    pub visibility: UnitVisibility,
    pub tag_type: TagType,
    pub global: TagEditorVisibility,
    pub player: TagEditorVisibility,
}

/// What a tag holds.
#[derive(Debug, Clone, PartialEq, Eq)]
pub enum TagType {
    Flag,
    Int { min: i32, max: i32, default: i32 },
    Unique { pool: String },
    Point,
    Direction,
    TerrainType,
    UnitType,
    MovementType,
}

pub enum TagTypeView {
    Flag,
    Int { min: i32, max: i32, default: i32 },
    Unique { pool: Seq<char> },
    Point,
    Direction,
    TerrainType,
    UnitType,
    MovementType,
}

impl View for TagType {
    type V = TagTypeView;

    open spec fn view(&self) -> TagTypeView {
        match self {
            TagType::Flag => TagTypeView::Flag,
            TagType::Int { min, max, default } => TagTypeView::Int { min: *min, max: *max, default: *default },
            TagType::Unique { pool } => TagTypeView::Unique { pool: pool@ },
            TagType::Point => TagTypeView::Point,
            TagType::Direction => TagTypeView::Direction,
            TagType::TerrainType => TagTypeView::TerrainType,
            TagType::UnitType => TagTypeView::UnitType,
            TagType::MovementType => TagTypeView::MovementType,
        }
    }
}

pub struct TagConfigView {
    pub name: Seq<char>,
    pub visibility: UnitVisibility,
    pub tag_type: TagTypeView,
    pub global: TagEditorVisibility,
    pub player: TagEditorVisibility,
}

impl View for TagConfig {
    type V = TagConfigView;

    open spec fn view(&self) -> TagConfigView {
        TagConfigView {
            name: self.name@,
            visibility: self.visibility,
            tag_type: self.tag_type@,
            global: self.global,
            player: self.player,
        }
    }
}

/// The columns of the tag table.
#[derive(Debug, Clone, Copy, PartialEq, Eq, Structural, Hash)]
pub enum TagConfigHeader {
    Id,
    Visibility,
    Type,
    MinValue,
    MaxValue,
    DefaultValue,
    UniqueWith,
    Global,
    Player,
}

impl Listable for TagConfigHeader {
    open spec fn spec_list() -> Seq<Self> {
        seq![Self::Id, Self::Visibility, Self::Type, Self::MinValue, Self::MaxValue, Self::DefaultValue, Self::UniqueWith, Self::Global, Self::Player]
    }

    open spec fn spec_name(self) -> Seq<char> {
        match self {
            Self::Id => "Id"@,
            Self::Visibility => "Visibility"@,
            Self::Type => "Type"@,
            Self::MinValue => "MinValue"@,
            Self::MaxValue => "MaxValue"@,
            Self::DefaultValue => "DefaultValue"@,
            Self::UniqueWith => "UniqueWith"@,
            Self::Global => "Global"@,
            Self::Player => "Player"@,
        }
    }

    open spec fn spec_kind_name() -> Seq<char> {
        "TagConfigHeader"@
    }

    fn list() -> (r: Vec<Self>) {
        vec![Self::Id, Self::Visibility, Self::Type, Self::MinValue, Self::MaxValue, Self::DefaultValue, Self::UniqueWith, Self::Global, Self::Player]
    }

    fn name(&self) -> (r: &'static str) {
        match self {
            Self::Id => "Id",
            Self::Visibility => "Visibility",
            Self::Type => "Type",
            Self::MinValue => "MinValue",
            Self::MaxValue => "MaxValue",
            Self::DefaultValue => "DefaultValue",
            Self::UniqueWith => "UniqueWith",
            Self::Global => "Global",
            Self::Player => "Player",
        }
    }

    fn kind_name() -> (r: &'static str) {
        "TagConfigHeader"
    }
}

impl FromConfig for TagConfigHeader {
    open spec fn spec_from_conf(s: Seq<char>, names: LoaderNames) -> Result<(Self, Seq<char>), ConfigError> {
        spec_listed_from_conf::<Self>(s)
    }

    fn from_conf<'a>(s: &'a [char], loader: &FileLoader) -> (r: Result<(Self, &'a [char]), ConfigParseError>) {
        listed_from_conf(s)
    }
}

impl TableHeader for TagConfigHeader {
    open spec fn spec_takes_custom() -> bool {
        false
    }

    fn takes_custom() -> (b: bool) {
        false
    }

    open spec fn spec_column(self) -> nat {
        match self {
            Self::Id => 0,
            Self::Visibility => 1,
            Self::Type => 2,
            Self::MinValue => 3,
            Self::MaxValue => 4,
            Self::DefaultValue => 5,
            Self::UniqueWith => 6,
            Self::Global => 7,
            Self::Player => 8,
        }
    }

    open spec fn spec_count() -> nat {
        9
    }

    fn column(self) -> (r: usize) {
        match self {
            Self::Id => 0,
            Self::Visibility => 1,
            Self::Type => 2,
            Self::MinValue => 3,
            Self::MaxValue => 4,
            Self::DefaultValue => 5,
            Self::UniqueWith => 6,
            Self::Global => 7,
            Self::Player => 8,
        }
    }

    fn count() -> (r: usize) {
        9
    }
}

/// `value` raised to `min` and then lowered to `max`.
pub open spec fn clamp(value: i32, min: i32, max: i32) -> i32 {
    let v = if value < min { min } else { value };
    if v > max { max } else { v }
}

/// The kind of tag named in the `Type` column (trimmed, lower case), with
/// what it needs from the other columns; `name` is the tag's name.
pub open spec fn spec_tag_type(row: Seq<Option<Seq<char>>>, name: Seq<char>, names: LoaderNames) -> Result<TagTypeView, ConfigError> {
    match cell(row, 2) {
        None => Err(ConfigError::MissingColumn(2)),
        Some(t) => {
            let kind = spec_to_lowercase(spec_trim(t));
            if kind == "flag"@ {
                Ok(TagTypeView::Flag)
            } else if kind == "int"@ {
                match spec_parse_cell::<i32>(row, 3, Some(0i32), names) {
                    Err(e) => Err(e),
                    Ok(min) => match spec_parse_cell::<i32>(row, 4, Some(0i32), names) {
                        Err(e) => Err(e),
                        Ok(max) => match spec_parse_cell::<i32>(row, 5, Some(0i32), names) {
                            Err(e) => Err(e),
                            Ok(default) => Ok(TagTypeView::Int { min, max, default: clamp(default, min, max) }),
                        },
                    },
                }
            } else if kind == "unique"@ {
                Ok(TagTypeView::Unique {
                    pool: match cell(row, 6) {
                        Some(p) if p.len() > 0 => spec_string_from_conf(p).0,
                        _ => name,
                    },
                })
            } else if kind == "point"@ {
                Ok(TagTypeView::Point)
            } else if kind == "direction"@ {
                Ok(TagTypeView::Direction)
            } else if kind == "terrain_type"@ || kind == "terraintype"@ {
                Ok(TagTypeView::TerrainType)
            } else if kind == "unit_type"@ || kind == "unittype"@ {
                Ok(TagTypeView::UnitType)
            } else if kind == "movement_type"@ || kind == "movementtype"@ {
                Ok(TagTypeView::MovementType)
            } else {
                Err(ConfigError::UnknownEnumMember(qualified("TagType"@, kind, None)))
            }
        },
    }
}

fn parse_tag_type(row: &TableRow, name: &String, loader: &FileLoader) -> (r: Result<TagType, ConfigParseError>)
    ensures
        match r {
            Ok(t) => spec_tag_type(row@, name@, loader@) == Ok::<TagTypeView, ConfigError>(t@),
            Err(e) => spec_tag_type(row@, name@, loader@) == Err::<TagTypeView, ConfigError>(e@),
        },
{
    let t = match row.get(2) {
        None => return Err(ConfigParseError::MissingColumn(2)),
        Some(t) => t,
    };
    let kind = to_lowercase(trim(t));
    let k = kind.as_slice();
    if is_word(k, "flag") {
        Ok(TagType::Flag)
    } else if is_word(k, "int") {
        let min = match parse_def::<i32>(row, 3, 0, loader) {
            Err(e) => return Err(e),
            Ok(v) => v,
        };
        let max = match parse_def::<i32>(row, 4, 0, loader) {
            Err(e) => return Err(e),
            Ok(v) => v,
        };
        let default = match parse_def::<i32>(row, 5, 0, loader) {
            Err(e) => return Err(e),
            Ok(v) => v,
        };
        let d = if default < min { min } else { default };
        let d = if d > max { max } else { d };
        Ok(TagType::Int { min, max, default: d })
    } else if is_word(k, "unique") {
        let pool = match row.get(6) {
            Some(p) => if p.len() > 0 {
                string_from_conf(p).0
            } else {
                name.clone()
            },
            None => name.clone(),
        };
        Ok(TagType::Unique { pool })
    } else if is_word(k, "point") {
        Ok(TagType::Point)
    } else if is_word(k, "direction") {
        Ok(TagType::Direction)
    } else if is_word(k, "terrain_type") || is_word(k, "terraintype") {
        Ok(TagType::TerrainType)
    } else if is_word(k, "unit_type") || is_word(k, "unittype") {
        Ok(TagType::UnitType)
    } else if is_word(k, "movement_type") || is_word(k, "movementtype") {
        Ok(TagType::MovementType)
    } else {
        Err(ConfigParseError::UnknownEnumMember(qualified_text("TagType", k, None)))
    }
}

impl TableLine for TagConfig {
    type Header = TagConfigHeader;

    /// The name is the trimmed `Id` cell; then the type, the visibility
    /// (`Normal` by default) and the editor visibilities (`Hidden` by
    /// default), read in that order.
    open spec fn spec_parse(row: Seq<Option<Seq<char>>>, custom: Seq<(Seq<char>, Seq<char>)>, names: LoaderNames) -> (Result<TagConfigView, ConfigError>, LoaderNames) {
        (match cell(row, 0) {
            None => Err(ConfigError::MissingColumn(0)),
            Some(id) => {
                let name = spec_trim(id);
                match spec_tag_type(row, name, names) {
                    Err(e) => Err(e),
                    Ok(tag_type) => match spec_parse_cell::<UnitVisibility>(row, 1, Some(UnitVisibility::Normal), names) {
                        Err(e) => Err(e),
                        Ok(visibility) => match spec_parse_cell::<TagEditorVisibility>(row, 7, Some(TagEditorVisibility::Hidden), names) {
                            Err(e) => Err(e),
                            Ok(global) => match spec_parse_cell::<TagEditorVisibility>(row, 8, Some(TagEditorVisibility::Hidden), names) {
                                Err(e) => Err(e),
                                Ok(player) => Ok(TagConfigView { name, visibility, tag_type, global, player }),
                            },
                        },
                    },
                }
            },
        }, names)
    }

    /// The name must not be empty, and an integer tag's minimum must lie
    /// below its maximum.
    open spec fn spec_validation(line: TagConfigView) -> Result<(), ConfigError> {
        if line.name.len() == 0 {
            Err(ConfigError::NameTooShort)
        } else {
            match line.tag_type {
                TagTypeView::Int { min, max, .. } => if min >= max {
                    Err(ConfigError::Other("TagType "@ + line.name + "'s minimum needs to be lower than maximum"@))
                } else {
                    Ok(())
                },
                _ => Ok(()),
            }
        }
    }

    fn parse(row: &TableRow, loader: &mut FileLoader) -> (r: Result<Self, ConfigParseError>) {
        let name = match row.get(0) {
            None => return Err(ConfigParseError::MissingColumn(0)),
            Some(id) => to_string(trim(id)),
        };
        let tag_type = match parse_tag_type(row, &name, loader) {
            Err(e) => return Err(e),
            Ok(t) => t,
        };
        let visibility = match parse_def::<UnitVisibility>(row, 1, UnitVisibility::Normal, loader) {
            Err(e) => return Err(e),
            Ok(v) => v,
        };
        let global = match parse_def::<TagEditorVisibility>(row, 7, TagEditorVisibility::Hidden, loader) {
            Err(e) => return Err(e),
            Ok(v) => v,
        };
        let player = match parse_def::<TagEditorVisibility>(row, 8, TagEditorVisibility::Hidden, loader) {
            Err(e) => return Err(e),
            Ok(v) => v,
        };
        Ok(TagConfig { name, visibility, tag_type, global, player })
    }

    fn simple_validation(&self) -> (r: Result<(), ConfigParseError>) {
        let n = str_chars(self.name.as_str());
        if n.len() == 0 {
            return Err(ConfigParseError::NameTooShort);
        }
        match &self.tag_type {
            TagType::Int { min, max, .. } => {
                if *min >= *max {
                    return Err(ConfigParseError::Other(framed_text("TagType ", n.as_slice(), "'s minimum needs to be lower than maximum")));
                }
                Ok(())
            },
            _ => Ok(()),
        }
    }
}

} // verus!
