use vstd::prelude::*;

use crate::config::file_loader::{FileLoader, LoaderNames};
use crate::config::kind_filter::{kind_filters_view, spec_kind_filter_list, KindFilter, KindFilterView, TerrainFilter, TokenFilter};
use crate::config::listing::{framed_text, is_word, listed_from_conf, spec_listed_from_conf, Listable};
use crate::config::parse::FromConfig;
use crate::config::table::{cell, script_cell, spec_script_cell, TableHeader, TableLine, TableRow};
use crate::config::text::{spec_to_lowercase, spec_trim, to_lowercase, trim};
use crate::config::unit_filter::{filters_view, spec_filter_list, UnitFilter, UnitFilterView};
use crate::config::{ConfigError, ConfigParseError};
use crate::terrain::TerrainType;
use crate::tokens::TokenType;

verus! {

/// What a global event looks at on every field: the terrain, each token,
/// or the unit and the units it transports, each passing every filter.
#[derive(Debug)]
pub enum GlobalEventType {
    Terrain(Vec<TerrainFilter>),
    Token(Vec<TokenFilter>),
    Unit(Vec<UnitFilter>),
}

pub enum GlobalEventTypeView {
    Terrain(Seq<KindFilterView<TerrainType>>),
    Token(Seq<KindFilterView<TokenType>>),
    Unit(Seq<UnitFilterView>),
}

impl View for GlobalEventType {
    type V = GlobalEventTypeView;

    open spec fn view(&self) -> GlobalEventTypeView {
        match self {
            GlobalEventType::Terrain(v) => GlobalEventTypeView::Terrain(kind_filters_view(v@)),
            GlobalEventType::Token(v) => GlobalEventTypeView::Token(kind_filters_view(v@)),
            GlobalEventType::Unit(v) => GlobalEventTypeView::Unit(filters_view(v@)),
        }
    }
}

/// Scripts that run at the start or end of every turn, where the filters
/// hold.
#[derive(Debug)]
pub struct GlobalEventConfig {
    pub typ: GlobalEventType,
    pub on_start_turn: Option<usize>,
    pub on_end_turn: Option<usize>,
}

pub struct GlobalEventConfigView {
    pub typ: GlobalEventTypeView,
    pub on_start_turn: Option<usize>,
    pub on_end_turn: Option<usize>,
}

impl View for GlobalEventConfig {
    type V = GlobalEventConfigView;

    open spec fn view(&self) -> GlobalEventConfigView {
        GlobalEventConfigView { typ: self.typ@, on_start_turn: self.on_start_turn, on_end_turn: self.on_end_turn }
    }
}

/// The columns of the global event table.
#[derive(Debug, Clone, Copy, PartialEq, Eq, Structural, Hash)]
pub enum GlobalEventConfigHeader {
    Type,
    Filter,
    StartTurn,
    EndTurn,
}

impl Listable for GlobalEventConfigHeader {
    open spec fn spec_list() -> Seq<Self> {
        seq![Self::Type, Self::Filter, Self::StartTurn, Self::EndTurn]
    }

    open spec fn spec_name(self) -> Seq<char> {
        match self {
            Self::Type => "Type"@,
            Self::Filter => "Filter"@,
            Self::StartTurn => "StartTurn"@,
            Self::EndTurn => "EndTurn"@,
        }
    }

    open spec fn spec_kind_name() -> Seq<char> {
        "GlobalEventConfigHeader"@
    }

    fn list() -> (r: Vec<Self>) {
        vec![Self::Type, Self::Filter, Self::StartTurn, Self::EndTurn]
    }

    fn name(&self) -> (r: &'static str) {
        match self {
            Self::Type => "Type",
            Self::Filter => "Filter",
            Self::StartTurn => "StartTurn",
            Self::EndTurn => "EndTurn",
        }
    }

    fn kind_name() -> (r: &'static str) {
        "GlobalEventConfigHeader"
    }
}

impl FromConfig for GlobalEventConfigHeader {
    open spec fn spec_from_conf(s: Seq<char>, names: LoaderNames) -> Result<(Self, Seq<char>), ConfigError> {
        spec_listed_from_conf::<Self>(s)
    }

    fn from_conf<'a>(s: &'a [char], loader: &FileLoader) -> (r: Result<(Self, &'a [char]), ConfigParseError>) {
        listed_from_conf(s)
    }
}

impl TableHeader for GlobalEventConfigHeader {
    open spec fn spec_takes_custom() -> bool {
        false
    }

    fn takes_custom() -> (b: bool) {
        false
    }

    open spec fn spec_column(self) -> nat {
        match self {
            Self::Type => 0,
            Self::Filter => 1,
            Self::StartTurn => 2,
            Self::EndTurn => 3,
        }
    }

    open spec fn spec_count() -> nat {
        4
    }

    fn column(self) -> (r: usize) {
        match self {
            Self::Type => 0,
            Self::Filter => 1,
            Self::StartTurn => 2,
            Self::EndTurn => 3,
        }
    }

    fn count() -> (r: usize) {
        4
    }
}

/// What a global event looks at: the `Type` cell, trimmed and in lower
/// case, names it (`unit`, `token` or `terrain`; anything else is
/// `UnknownEnumMember`), and the `Filter` cell holds its filters (none
/// without the column).
pub open spec fn spec_event_type(row: Seq<Option<Seq<char>>>, names: LoaderNames) -> (Result<GlobalEventTypeView, ConfigError>, LoaderNames) {
    match cell(row, 0) {
        None => (Err(ConfigError::MissingColumn(0)), names),
        Some(t) => {
            let kind = spec_to_lowercase(spec_trim(t));
            if kind == "unit"@ {
                match cell(row, 1) {
                    None => (Ok(GlobalEventTypeView::Unit(seq![])), names),
                    Some(v) => {
                        let (r, n) = spec_filter_list(v, false, names);
                        (match r {
                            Ok((items, _)) => Ok(GlobalEventTypeView::Unit(items)),
                            Err(e) => Err(e),
                        }, n)
                    },
                }
            } else if kind == "token"@ {
                match cell(row, 1) {
                    None => (Ok(GlobalEventTypeView::Token(seq![])), names),
                    Some(v) => {
                        let (r, n) = spec_kind_filter_list::<TokenType>(v, false, names);
                        (match r {
                            Ok((items, _)) => Ok(GlobalEventTypeView::Token(items)),
                            Err(e) => Err(e),
                        }, n)
                    },
                }
            } else if kind == "terrain"@ {
                match cell(row, 1) {
                    None => (Ok(GlobalEventTypeView::Terrain(seq![])), names),
                    Some(v) => {
                        let (r, n) = spec_kind_filter_list::<TerrainType>(v, false, names);
                        (match r {
                            Ok((items, _)) => Ok(GlobalEventTypeView::Terrain(items)),
                            Err(e) => Err(e),
                        }, n)
                    },
                }
            } else {
                (Err(ConfigError::UnknownEnumMember("GlobalEventType::"@ + kind)), names)
            }
        },
    }
}

impl GlobalEventConfig {
    fn parse_type(row: &TableRow, loader: &mut FileLoader) -> (r: Result<GlobalEventType, ConfigParseError>)
        ensures
            (match r { Ok(t) => Ok(t@), Err(e) => Err(e@) }, final(loader)@) == spec_event_type(row@, old(loader)@),
    {
        let t = match row.get(0) {
            None => return Err(ConfigParseError::MissingColumn(0)),
            Some(t) => t,
        };
        let kind = to_lowercase(trim(t));
        if is_word(kind.as_slice(), "unit") {
            match row.get(1) {
                None => {
                    let v: Vec<UnitFilter> = Vec::new();
                    assert(filters_view(v@) =~= seq![]);
                    Ok(GlobalEventType::Unit(v))
                },
                Some(v) => match UnitFilter::filter_list(v, false, loader) {
                    Ok((items, _)) => Ok(GlobalEventType::Unit(items)),
                    Err(e) => Err(e),
                },
            }
        } else if is_word(kind.as_slice(), "token") {
            match row.get(1) {
                None => {
                    let v: Vec<TokenFilter> = Vec::new();
                    assert(kind_filters_view(v@) =~= seq![]);
                    Ok(GlobalEventType::Token(v))
                },
                Some(v) => match KindFilter::<TokenType>::filter_list(v, false, loader) {
                    Ok((items, _)) => Ok(GlobalEventType::Token(items)),
                    Err(e) => Err(e),
                },
            }
        } else if is_word(kind.as_slice(), "terrain") {
            match row.get(1) {
                None => {
                    let v: Vec<TerrainFilter> = Vec::new();
                    assert(kind_filters_view(v@) =~= seq![]);
                    Ok(GlobalEventType::Terrain(v))
                },
                Some(v) => match KindFilter::<TerrainType>::filter_list(v, false, loader) {
                    Ok((items, _)) => Ok(GlobalEventType::Terrain(items)),
                    Err(e) => Err(e),
                },
            }
        } else {
            let message = framed_text("GlobalEventType::", kind.as_slice(), "");
            proof {
                reveal_strlit("");
                assert(message@ =~= "GlobalEventType::"@ + kind@);
            }
            Err(ConfigParseError::UnknownEnumMember(message))
        }
    }
}

impl TableLine for GlobalEventConfig {
    type Header = GlobalEventConfigHeader;

    /// The type with its filters is read first, then the start of turn
    /// script, then the end of turn script.
    open spec fn spec_parse(row: Seq<Option<Seq<char>>>, custom: Seq<(Seq<char>, Seq<char>)>, names: LoaderNames) -> (Result<GlobalEventConfigView, ConfigError>, LoaderNames) {
        let (typ, n1) = spec_event_type(row, names);
        match typ {
            Err(e) => (Err(e), n1),
            Ok(typ) => {
                let (start, n2) = spec_script_cell(row, 2, n1);
                match start {
                    Err(e) => (Err(e), n2),
                    Ok(on_start_turn) => {
                        let (end, n3) = spec_script_cell(row, 3, n2);
                        (match end {
                            Err(e) => Err(e),
                            Ok(on_end_turn) => Ok(GlobalEventConfigView { typ, on_start_turn, on_end_turn }),
                        }, n3)
                    },
                }
            },
        }
    }

    /// Every line that reads is valid.
    open spec fn spec_validation(line: GlobalEventConfigView) -> Result<(), ConfigError> {
        Ok(())
    }

    fn parse(row: &TableRow, loader: &mut FileLoader) -> (r: Result<Self, ConfigParseError>) {
        let typ = match Self::parse_type(row, loader) {
            Err(e) => return Err(e),
            Ok(t) => t,
        };
        let on_start_turn = match script_cell(row, 2, loader) {
            Err(e) => return Err(e),
            Ok(s) => s,
        };
        let on_end_turn = match script_cell(row, 3, loader) {
            Err(e) => return Err(e),
            Ok(s) => s,
        };
        Ok(GlobalEventConfig { typ, on_start_turn, on_end_turn })
    }

    fn simple_validation(&self) -> (r: Result<(), ConfigParseError>) {
        Ok(())
    }
}

} // verus!
