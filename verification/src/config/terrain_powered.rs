use vstd::prelude::*;

use crate::config::file_loader::{input_reference, input_reference_text, spec_rhai_step, FileLoader, LoaderNames};
use crate::config::kind_filter::{kind_filters_view, spec_kind_filter_list, KindFilter, KindFilterView, TerrainFilter};
use crate::config::listing::{listed_from_conf, spec_listed_from_conf, Listable};
use crate::config::number_modification::{mod_cell, spec_mod_cell, NumberMod};
use crate::config::parse::FromConfig;
use crate::config::table::{cell, TableHeader, TableLine, TableRow};
use crate::config::{ConfigError, ConfigParseError};
use crate::fraction::Fraction;
use crate::terrain::TerrainType;

verus! {

/// How terrain changes where the filters hold, e.g. while a commander's
/// power is active.
#[derive(Debug)]
pub struct TerrainPoweredConfig {
    /// the filters of the `Power` column followed by those of `Affects`
    pub affects: Vec<TerrainFilter>,
    pub vision: NumberMod<i8>,
    pub income_factor: NumberMod<Fraction>,
    /// the function that prepares the action's input and the one that runs it
    pub action_script: Option<(usize, usize)>,
}

pub struct TerrainPoweredConfigView {
    pub affects: Seq<KindFilterView<TerrainType>>,
    pub vision: NumberMod<i8>,
    pub income_factor: NumberMod<Fraction>,
    pub action_script: Option<(usize, usize)>,
}

impl View for TerrainPoweredConfig {
    type V = TerrainPoweredConfigView;

    open spec fn view(&self) -> TerrainPoweredConfigView {
        TerrainPoweredConfigView {
            affects: kind_filters_view(self.affects@),
            vision: self.vision,
            income_factor: self.income_factor,
            action_script: self.action_script,
        }
    }
}

/// The columns of the table of powered terrain.
#[derive(Debug, Clone, Copy, PartialEq, Eq, Structural, Hash)]
pub enum TerrainPoweredConfigHeader {
    Power,
    Affects,
    Vision,
    IncomeFactor,
    ActionScript,
}

impl Listable for TerrainPoweredConfigHeader {
    open spec fn spec_list() -> Seq<Self> {
        seq![Self::Power, Self::Affects, Self::Vision, Self::IncomeFactor, Self::ActionScript]
    }

    open spec fn spec_name(self) -> Seq<char> {
        match self {
            Self::Power => "Power"@,
            Self::Affects => "Affects"@,
            Self::Vision => "Vision"@,
            Self::IncomeFactor => "IncomeFactor"@,
            Self::ActionScript => "ActionScript"@,
        }
    }

    open spec fn spec_kind_name() -> Seq<char> {
        "TerrainPoweredConfigHeader"@
    }

    fn list() -> (r: Vec<Self>) {
        vec![Self::Power, Self::Affects, Self::Vision, Self::IncomeFactor, Self::ActionScript]
    }

    fn name(&self) -> (r: &'static str) {
        match self {
            Self::Power => "Power",
            Self::Affects => "Affects",
            Self::Vision => "Vision",
            Self::IncomeFactor => "IncomeFactor",
            Self::ActionScript => "ActionScript",
        }
    }

    fn kind_name() -> (r: &'static str) {
        "TerrainPoweredConfigHeader"
    }
}

impl FromConfig for TerrainPoweredConfigHeader {
    open spec fn spec_from_conf(s: Seq<char>, names: LoaderNames) -> Result<(Self, Seq<char>), ConfigError> {
        spec_listed_from_conf::<Self>(s)
    }

    fn from_conf<'a>(s: &'a [char], loader: &FileLoader) -> (r: Result<(Self, &'a [char]), ConfigParseError>) {
        listed_from_conf(s)
    }
}

impl TableHeader for TerrainPoweredConfigHeader {
    open spec fn spec_takes_custom() -> bool {
        false
    }

    fn takes_custom() -> (b: bool) {
        false
    }

    open spec fn spec_column(self) -> nat {
        match self {
            Self::Power => 0,
            Self::Affects => 1,
            Self::Vision => 2,
            Self::IncomeFactor => 3,
            Self::ActionScript => 4,
        }
    }

    open spec fn spec_count() -> nat {
        5
    }

    fn column(self) -> (r: usize) {
        match self {
            Self::Power => 0,
            Self::Affects => 1,
            Self::Vision => 2,
            Self::IncomeFactor => 3,
            Self::ActionScript => 4,
        }
    }

    fn count() -> (r: usize) {
        5
    }
}

/// The terrain filters in column `key`: none without the column, else the
/// list in the cell.
pub open spec fn spec_terrain_filters_cell(row: Seq<Option<Seq<char>>>, key: int, names: LoaderNames) -> (Result<Seq<KindFilterView<TerrainType>>, ConfigError>, LoaderNames) {
    match cell(row, key) {
        None => (Ok(seq![]), names),
        Some(v) => {
            let (r, n) = spec_kind_filter_list::<TerrainType>(v, false, names);
            (match r {
                Ok((items, _)) => Ok(items),
                Err(e) => Err(e),
            }, n)
        },
    }
}

/// The action of powered terrain: none for a missing or empty cell, else
/// the function named in the cell, with one parameter, and its `_input`
/// function without parameters.
pub open spec fn spec_terrain_action(row: Seq<Option<Seq<char>>>, names: LoaderNames) -> (Result<Option<(usize, usize)>, ConfigError>, LoaderNames) {
    match cell(row, 4) {
        Some(s) if s.len() > 0 => {
            let (exe, n1) = spec_rhai_step(names, s, 1, 1);
            match exe {
                Err(e) => (Err(e), n1),
                Ok(exe) => {
                    let (input, n2) = spec_rhai_step(n1, input_reference(s), 0, 0);
                    (match input {
                        Err(e) => Err(e),
                        Ok(input) => Ok(Some((input.index, exe.index))),
                    }, n2)
                },
            }
        },
        _ => (Ok(None), names),
    }
}

impl TerrainPoweredConfig {
    fn filters_cell(row: &TableRow, key: usize, loader: &mut FileLoader) -> (r: Result<Vec<TerrainFilter>, ConfigParseError>)
        ensures
            (match r { Ok(v) => Ok(kind_filters_view(v@)), Err(e) => Err(e@) }, final(loader)@) == spec_terrain_filters_cell(row@, key as int, old(loader)@),
    {
        match row.get(key) {
            None => {
                let v: Vec<TerrainFilter> = Vec::new();
                assert(kind_filters_view(v@) =~= seq![]);
                Ok(v)
            },
            Some(text) => match KindFilter::<TerrainType>::filter_list(text, false, loader) {
                Ok((items, _)) => Ok(items),
                Err(e) => Err(e),
            },
        }
    }

    fn action_script(row: &TableRow, loader: &mut FileLoader) -> (r: Result<Option<(usize, usize)>, ConfigParseError>)
        ensures
            (match r { Ok(v) => Ok(v), Err(e) => Err(e@) }, final(loader)@) == spec_terrain_action(row@, old(loader)@),
    {
        match row.get(4) {
            Some(s) => {
                if s.len() > 0 {
                    match loader.rhai_function(s, 1, 1) {
                        Err(e) => Err(e),
                        Ok(exe) => {
                            let input_name = input_reference_text(s);
                            match loader.rhai_function(input_name.as_slice(), 0, 0) {
                                Err(e) => Err(e),
                                Ok(input) => Ok(Some((input.index, exe.index))),
                            }
                        },
                    }
                } else {
                    Ok(None)
                }
            },
            None => Ok(None),
        }
    }
}

/// The view of two lists of filters one after the other is the two views
/// one after the other.
proof fn lemma_filters_view_concat(a: Seq<TerrainFilter>, b: Seq<TerrainFilter>)
    ensures
        kind_filters_view(a + b) == kind_filters_view(a) + kind_filters_view(b),
    decreases b.len(),
{
    if b.len() == 0 {
        assert(a + b =~= a);
        assert(kind_filters_view(b) =~= seq![]);
        assert(kind_filters_view(a) + kind_filters_view(b) =~= kind_filters_view(a));
    } else {
        assert((a + b).drop_last() =~= a + b.drop_last());
        assert((a + b).last() == b.last());
        lemma_filters_view_concat(a, b.drop_last());
        assert(kind_filters_view(a + b) =~= kind_filters_view(a) + kind_filters_view(b));
    }
}

/// The filters of `first` followed by those of `second`.
fn joined(first: Vec<TerrainFilter>, second: Vec<TerrainFilter>) -> (r: Vec<TerrainFilter>)
    ensures
        kind_filters_view(r@) == kind_filters_view(first@) + kind_filters_view(second@),
{
    let mut r = first;
    let mut rest = second;
    let ghost a = r@;
    let ghost b = rest@;
    r.append(&mut rest);
    proof {
        lemma_filters_view_concat(a, b);
    }
    r
}

impl TableLine for TerrainPoweredConfig {
    type Header = TerrainPoweredConfigHeader;

    /// The cells are read in the order `Power`, `Affects`, `Vision`,
    /// `IncomeFactor`, `ActionScript`; the first that can't be read is the
    /// error.
    open spec fn spec_parse(row: Seq<Option<Seq<char>>>, custom: Seq<(Seq<char>, Seq<char>)>, names: LoaderNames) -> (Result<TerrainPoweredConfigView, ConfigError>, LoaderNames) {
        let (power, n1) = spec_terrain_filters_cell(row, 0, names);
        match power {
            Err(e) => (Err(e), n1),
            Ok(power) => {
                let (affects, n2) = spec_terrain_filters_cell(row, 1, n1);
                match affects {
                    Err(e) => (Err(e), n2),
                    Ok(affects) => {
                        let (vision, n3) = spec_mod_cell::<i8>(row, 2, n2);
                        match vision {
                            Err(e) => (Err(e), n3),
                            Ok(vision) => {
                                let (income_factor, n4) = spec_mod_cell::<Fraction>(row, 3, n3);
                                match income_factor {
                                    Err(e) => (Err(e), n4),
                                    Ok(income_factor) => {
                                        let (action, n5) = spec_terrain_action(row, n4);
                                        (match action {
                                            Err(e) => Err(e),
                                            Ok(action_script) => Ok(TerrainPoweredConfigView {
                                                affects: power + affects,
                                                vision,
                                                income_factor,
                                                action_script,
                                            }),
                                        }, n5)
                                    },
                                }
                            },
                        }
                    },
                }
            },
        }
    }

    /// Every line that reads is valid.
    open spec fn spec_validation(line: TerrainPoweredConfigView) -> Result<(), ConfigError> {
        Ok(())
    }

    fn parse(row: &TableRow, loader: &mut FileLoader) -> (r: Result<Self, ConfigParseError>) {
        let power = match Self::filters_cell(row, 0, loader) {
            Err(e) => return Err(e),
            Ok(v) => v,
        };
        let affects = match Self::filters_cell(row, 1, loader) {
            Err(e) => return Err(e),
            Ok(v) => v,
        };
        let vision = match mod_cell::<i8>(row, 2, loader) {
            Err(e) => return Err(e),
            Ok(v) => v,
        };
        let income_factor = match mod_cell::<Fraction>(row, 3, loader) {
            Err(e) => return Err(e),
            Ok(v) => v,
        };
        let action_script = match Self::action_script(row, loader) {
            Err(e) => return Err(e),
            Ok(v) => v,
        };
        Ok(TerrainPoweredConfig { affects: joined(power, affects), vision, income_factor, action_script })
    }

    fn simple_validation(&self) -> (r: Result<(), ConfigParseError>) {
        Ok(())
    }
}

} // verus!
