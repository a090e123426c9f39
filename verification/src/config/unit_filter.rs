use vstd::prelude::*;

use crate::attack_pattern::{pattern_types_from_conf, spec_pattern_type_list, AttackPatternType, AttackPatternTypeView};
use crate::config::file_loader::{spec_rhai_step, FileLoader, LoaderNames};
use crate::config::listing::{is_word, qualified, qualified_text};
use crate::config::movement_type_config::MovementPattern;
use crate::config::parse::{
    close_tuple, lemma_open_tuple_shortens, lemma_string_base_shortens, open_tuple, parse_inner_vec, parse_tuple1, parse_tuple2,
    spec_close_tuple, spec_open_tuple, spec_parse_inner_vec, spec_parse_tuple1, spec_parse_tuple2, spec_string_base,
    spec_string_from_conf, string_base,
};
use crate::config::text::{find_separator, prefix, spec_trim_start, starts_with_char, suffix, trim, trim_start};
use crate::config::{CommanderType, ConfigError, ConfigParseError};
use crate::fog::FogIntensity;
use crate::fraction::Fraction;
use crate::tags::{FlagKey, TagKey};
use crate::terrain::TerrainType;
use crate::tokens::TokenType;
use crate::units::{HeroType, MovementType, UnitType};

verus! {

/// A condition on a unit, and on its situation, that configuration lines
/// are restricted by. The lists are sets: a filter holds if the unit has
/// one of the listed properties.
#[derive(Debug)]
pub enum UnitFilter {
    /// a script function decides
    Rhai(usize),
    /// the owner plays this commander, optionally with this power active
    Commander(CommanderType, Option<u8>),
    /// the owner's commander has at least this charge
    CommanderCharge(u32),
    /// one of these heroes (optionally with a power) affects the unit
    Hero(Vec<(HeroType, Option<u8>)>),
    /// one of these heroes (optionally with a power) is on the board
    HeroGlobal(Vec<(HeroType, Option<u8>)>),
    /// the unit is one of these heroes (any hero if none is listed)
    IsHero(Vec<(HeroType, Option<u8>)>),
    /// the unit's hero has at least this charge
    HeroCharge(Fraction),
    Unit(Vec<UnitType>),
    Flag(Vec<FlagKey>),
    Tag(Vec<TagKey>),
    Movement(Vec<MovementType>),
    SubMovement(Vec<MovementType>),
    MovementPattern(Vec<MovementPattern>),
    AttackPattern(Vec<AttackPatternType>),
    Unowned,
    OwnerTurn,
    Carried,
    Counter,
    Terrain(Vec<TerrainType>),
    Token(Vec<TokenType>),
    Fog(Vec<FogIntensity>),
    /// the unit moved along a path of at least one step
    Moved,
    /// every filter holds of the other unit involved
    OtherUnit(Vec<UnitFilter>),
    /// at least one of the filters fails
    Not(Vec<UnitFilter>),
}

/// A unit filter with its lists seen as sets (the nested filters stay in
/// order).
pub enum UnitFilterView {
    Rhai(usize),
    Commander(CommanderType, Option<u8>),
    CommanderCharge(u32),
    Hero(Set<(HeroType, Option<u8>)>),
    HeroGlobal(Set<(HeroType, Option<u8>)>),
    IsHero(Set<(HeroType, Option<u8>)>),
    HeroCharge(Fraction),
    Unit(Set<UnitType>),
    Flag(Set<FlagKey>),
    Tag(Set<TagKey>),
    Movement(Set<MovementType>),
    SubMovement(Set<MovementType>),
    MovementPattern(Set<MovementPattern>),
    AttackPattern(Set<AttackPatternTypeView>),
    Unowned,
    OwnerTurn,
    Carried,
    Counter,
    Terrain(Set<TerrainType>),
    Token(Set<TokenType>),
    Fog(Set<FogIntensity>),
    Moved,
    OtherUnit(Seq<UnitFilterView>),
    Not(Seq<UnitFilterView>),
}

impl UnitFilter {
    pub open spec fn filter_view(&self) -> UnitFilterView
        decreases self,
    {
        match self {
            UnitFilter::Rhai(i) => UnitFilterView::Rhai(*i),
            UnitFilter::Commander(c, p) => UnitFilterView::Commander(*c, *p),
            UnitFilter::CommanderCharge(c) => UnitFilterView::CommanderCharge(*c),
            UnitFilter::Hero(v) => UnitFilterView::Hero(v@.to_set()),
            UnitFilter::HeroGlobal(v) => UnitFilterView::HeroGlobal(v@.to_set()),
            UnitFilter::IsHero(v) => UnitFilterView::IsHero(v@.to_set()),
            UnitFilter::HeroCharge(c) => UnitFilterView::HeroCharge(*c),
            UnitFilter::Unit(v) => UnitFilterView::Unit(v@.to_set()),
            UnitFilter::Flag(v) => UnitFilterView::Flag(v@.to_set()),
            UnitFilter::Tag(v) => UnitFilterView::Tag(v@.to_set()),
            UnitFilter::Movement(v) => UnitFilterView::Movement(v@.to_set()),
            UnitFilter::SubMovement(v) => UnitFilterView::SubMovement(v@.to_set()),
            UnitFilter::MovementPattern(v) => UnitFilterView::MovementPattern(v@.to_set()),
            UnitFilter::AttackPattern(v) => UnitFilterView::AttackPattern(v@.map_values(|t: AttackPatternType| t@).to_set()),
            UnitFilter::Unowned => UnitFilterView::Unowned,
            UnitFilter::OwnerTurn => UnitFilterView::OwnerTurn,
            UnitFilter::Carried => UnitFilterView::Carried,
            UnitFilter::Counter => UnitFilterView::Counter,
            UnitFilter::Terrain(v) => UnitFilterView::Terrain(v@.to_set()),
            UnitFilter::Token(v) => UnitFilterView::Token(v@.to_set()),
            UnitFilter::Fog(v) => UnitFilterView::Fog(v@.to_set()),
            UnitFilter::Moved => UnitFilterView::Moved,
            UnitFilter::OtherUnit(l) => UnitFilterView::OtherUnit(filters_view(l@)),
            UnitFilter::Not(l) => UnitFilterView::Not(filters_view(l@)),
        }
    }
}

impl View for UnitFilter {
    type V = UnitFilterView;

    open spec fn view(&self) -> UnitFilterView {
        self.filter_view()
    }
}

/// The filters of a list, each seen through its view.
pub open spec fn filters_view(v: Seq<UnitFilter>) -> Seq<UnitFilterView>
    decreases v,
{
    if v.len() == 0 {
        seq![]
    } else {
        filters_view(v.drop_last()).push(v.last().filter_view())
    }
}

/// A filter that the loader's script functions take no part in: the
/// property named by `base`, with the list or values in `rest`. An unknown
/// name is `UnknownEnumMember`.
pub open spec fn spec_plain_filter(base: Seq<char>, rest: Seq<char>, names: LoaderNames) -> Result<(UnitFilterView, Seq<char>), ConfigError> {
    if base == "Unit"@ || base == "U"@ {
        match spec_parse_inner_vec::<UnitType>(rest, true, names) {
            Ok((v, r)) => Ok((UnitFilterView::Unit(v.to_set()), r)),
            Err(e) => Err(e),
        }
    } else if base == "Flag"@ || base == "F"@ {
        match spec_parse_inner_vec::<FlagKey>(rest, true, names) {
            Ok((v, r)) => Ok((UnitFilterView::Flag(v.to_set()), r)),
            Err(e) => Err(e),
        }
    } else if base == "Tag"@ {
        match spec_parse_inner_vec::<TagKey>(rest, true, names) {
            Ok((v, r)) => Ok((UnitFilterView::Tag(v.to_set()), r)),
            Err(e) => Err(e),
        }
    } else if base == "Movement"@ || base == "M"@ {
        match spec_parse_inner_vec::<MovementType>(rest, true, names) {
            Ok((v, r)) => Ok((UnitFilterView::Movement(v.to_set()), r)),
            Err(e) => Err(e),
        }
    } else if base == "SubMovement"@ || base == "SM"@ {
        match spec_parse_inner_vec::<MovementType>(rest, true, names) {
            Ok((v, r)) => Ok((UnitFilterView::SubMovement(v.to_set()), r)),
            Err(e) => Err(e),
        }
    } else if base == "Terrain"@ || base == "T"@ {
        match spec_parse_inner_vec::<TerrainType>(rest, true, names) {
            Ok((v, r)) => Ok((UnitFilterView::Terrain(v.to_set()), r)),
            Err(e) => Err(e),
        }
    } else if base == "Token"@ {
        match spec_parse_inner_vec::<TokenType>(rest, true, names) {
            Ok((v, r)) => Ok((UnitFilterView::Token(v.to_set()), r)),
            Err(e) => Err(e),
        }
    } else if base == "MP"@ || base == "MovementPattern"@ {
        match spec_parse_inner_vec::<MovementPattern>(rest, true, names) {
            Ok((v, r)) => Ok((UnitFilterView::MovementPattern(v.to_set()), r)),
            Err(e) => Err(e),
        }
    } else if base == "H"@ || base == "Hero"@ {
        match spec_parse_inner_vec::<(HeroType, Option<u8>)>(rest, true, names) {
            Ok((v, r)) => Ok((UnitFilterView::Hero(v.to_set()), r)),
            Err(e) => Err(e),
        }
    } else if base == "HG"@ || base == "HeroGlobal"@ {
        match spec_parse_inner_vec::<(HeroType, Option<u8>)>(rest, true, names) {
            Ok((v, r)) => Ok((UnitFilterView::HeroGlobal(v.to_set()), r)),
            Err(e) => Err(e),
        }
    } else if base == "IH"@ || base == "IsHero"@ {
        match spec_parse_inner_vec::<(HeroType, Option<u8>)>(rest, false, names) {
            Ok((v, r)) => Ok((UnitFilterView::IsHero(v.to_set()), r)),
            Err(e) => Err(e),
        }
    } else if base == "HC"@ || base == "HeroCharge"@ {
        match spec_parse_tuple1::<Fraction>(rest, names) {
            Ok((c, r)) => Ok((UnitFilterView::HeroCharge(c), r)),
            Err(e) => Err(e),
        }
    } else if base == "AP"@ || base == "AttackPattern"@ {
        match spec_pattern_type_list(rest, true) {
            Ok((v, r)) => Ok((UnitFilterView::AttackPattern(v.to_set()), r)),
            Err(e) => Err(e),
        }
    } else if base == "CC"@ || base == "CommanderCharge"@ {
        match spec_parse_tuple1::<u32>(rest, names) {
            Ok((c, r)) => Ok((UnitFilterView::CommanderCharge(c), r)),
            Err(e) => Err(e),
        }
    } else if base == "Fog"@ {
        match spec_parse_inner_vec::<FogIntensity>(rest, true, names) {
            Ok((v, r)) => Ok((UnitFilterView::Fog(v.to_set()), r)),
            Err(e) => Err(e),
        }
    } else if base == "Moved"@ {
        Ok((UnitFilterView::Moved, rest))
    } else if base == "Unowned"@ {
        Ok((UnitFilterView::Unowned, rest))
    } else if base == "Commander"@ || base == "Co"@ {
        match spec_parse_tuple2::<CommanderType, u8>(rest, names) {
            Ok((c, p, r)) => Ok((UnitFilterView::Commander(c, Some(p)), r)),
            Err(_) => match spec_parse_tuple1::<CommanderType>(rest, names) {
                Ok((c, r)) => Ok((UnitFilterView::Commander(c, None), r)),
                Err(e) => Err(e),
            },
        }
    } else if base == "OwnerTurn"@ {
        Ok((UnitFilterView::OwnerTurn, rest))
    } else if base == "Carried"@ {
        Ok((UnitFilterView::Carried, rest))
    } else if base == "Counter"@ {
        Ok((UnitFilterView::Counter, rest))
    } else {
        Err(ConfigError::UnknownEnumMember(qualified("UnitFilter"@, base, None)))
    }
}

/// A unit filter as the configuration writes it: a script reference in
/// `Rhai(..)` or `Script(..)` (registered with the loader), nested filters
/// in `OtherUnit(..)` (short `OU`) or `Not(..)` (which needs at least one),
/// or one of the plain filters of `spec_plain_filter`.
pub open spec fn spec_unit_filter_from_conf(s: Seq<char>, names: LoaderNames) -> (Result<(UnitFilterView, Seq<char>), ConfigError>, LoaderNames)
    decreases s.len(), 0nat,
{
    let (base, rest) = spec_string_base(s);
    if base == "Rhai"@ || base == "Script"@ {
        let (t, bracketed) = spec_open_tuple(rest);
        let (name, after) = spec_string_from_conf(t);
        let (f, n) = spec_rhai_step(names, name, 0, 0);
        (match f {
            Ok(p) => Ok((UnitFilterView::Rhai(p.index), spec_close_tuple(after, bracketed))),
            Err(e) => Err(e),
        }, n)
    } else if base == "OU"@ || base == "OtherUnit"@ || base == "Not"@ {
        proof {
            lemma_string_base_shortens(s);
            reveal_strlit("OU");
            reveal_strlit("OtherUnit");
            reveal_strlit("Not");
        }
        let (r, n) = spec_filter_list(rest, base == "Not"@, names);
        (match r {
            Ok((items, rest2)) => Ok((if base == "Not"@ { UnitFilterView::Not(items) } else { UnitFilterView::OtherUnit(items) }, rest2)),
            Err(e) => Err(e),
        }, n)
    } else {
        (spec_plain_filter(base, rest, names), names)
    }
}

/// The filters of a list that starts with `s`, appended to `acc`, the text
/// after the list, and the loader's names after reading it; see
/// `spec_list_items`.
pub open spec fn spec_filter_items(s: Seq<char>, names: LoaderNames, stop: bool, acc: Seq<UnitFilterView>) -> (Result<(Seq<UnitFilterView>, Seq<char>), ConfigError>, LoaderNames)
    decreases s.len(), 1nat,
{
    if s.len() == 0 {
        (Ok((acc, s)), names)
    } else if stop && s[0] == ')' {
        (Ok((acc, spec_trim_start(s.skip(1)))), names)
    } else {
        let (r, n) = spec_unit_filter_from_conf(s, names);
        match r {
            Err(e) => (Err(e), n),
            Ok((f, rest)) => {
                let t = spec_trim_start(rest);
                let t2 = if t.len() > 0 && t[0] == ',' { spec_trim_start(t.skip(1)) } else { t };
                if t2.len() < s.len() {
                    spec_filter_items(t2, n, stop, acc.push(f))
                } else {
                    (Err(ConfigError::EmptyList), n)
                }
            },
        }
    }
}

/// A list of unit filters separated by commas, optionally in brackets;
/// with `needs_content`, an empty list is an error.
pub open spec fn spec_filter_list(source: Seq<char>, needs_content: bool, names: LoaderNames) -> (Result<(Seq<UnitFilterView>, Seq<char>), ConfigError>, LoaderNames)
    decreases source.len(), 2nat,
{
    let (s, bracketed) = spec_open_tuple(source);
    proof {
        lemma_open_tuple_shortens(source);
    }
    let (r, n) = spec_filter_items(s, names, bracketed, seq![]);
    (match r {
        Err(e) => Err(e),
        Ok((items, rest)) => if needs_content && items.len() == 0 {
            Err(ConfigError::EmptyList)
        } else {
            Ok((items, rest))
        },
    }, n)
}

fn plain_filter<'a>(base: &[char], rest: &'a [char], loader: &FileLoader) -> (r: Result<(UnitFilter, &'a [char]), ConfigParseError>)
    ensures
        match r {
            Ok((f, rest2)) => spec_plain_filter(base@, rest@, loader@) == Ok::<(UnitFilterView, Seq<char>), ConfigError>((f@, rest2@)),
            Err(e) => spec_plain_filter(base@, rest@, loader@) == Err::<(UnitFilterView, Seq<char>), ConfigError>(e@),
        },
{
    if is_word(base, "Unit") || is_word(base, "U") {
        match parse_inner_vec::<UnitType>(rest, true, loader) {
            Ok((v, r)) => Ok((UnitFilter::Unit(v), r)),
            Err(e) => Err(e),
        }
    } else if is_word(base, "Flag") || is_word(base, "F") {
        match parse_inner_vec::<FlagKey>(rest, true, loader) {
            Ok((v, r)) => Ok((UnitFilter::Flag(v), r)),
            Err(e) => Err(e),
        }
    } else if is_word(base, "Tag") {
        match parse_inner_vec::<TagKey>(rest, true, loader) {
            Ok((v, r)) => Ok((UnitFilter::Tag(v), r)),
            Err(e) => Err(e),
        }
    } else if is_word(base, "Movement") || is_word(base, "M") {
        match parse_inner_vec::<MovementType>(rest, true, loader) {
            Ok((v, r)) => Ok((UnitFilter::Movement(v), r)),
            Err(e) => Err(e),
        }
    } else if is_word(base, "SubMovement") || is_word(base, "SM") {
        match parse_inner_vec::<MovementType>(rest, true, loader) {
            Ok((v, r)) => Ok((UnitFilter::SubMovement(v), r)),
            Err(e) => Err(e),
        }
    } else if is_word(base, "Terrain") || is_word(base, "T") {
        match parse_inner_vec::<TerrainType>(rest, true, loader) {
            Ok((v, r)) => Ok((UnitFilter::Terrain(v), r)),
            Err(e) => Err(e),
        }
    } else if is_word(base, "Token") {
        match parse_inner_vec::<TokenType>(rest, true, loader) {
            Ok((v, r)) => Ok((UnitFilter::Token(v), r)),
            Err(e) => Err(e),
        }
    } else if is_word(base, "MP") || is_word(base, "MovementPattern") {
        match parse_inner_vec::<MovementPattern>(rest, true, loader) {
            Ok((v, r)) => Ok((UnitFilter::MovementPattern(v), r)),
            Err(e) => Err(e),
        }
    } else if is_word(base, "H") || is_word(base, "Hero") {
        match parse_inner_vec::<(HeroType, Option<u8>)>(rest, true, loader) {
            Ok((v, r)) => Ok((UnitFilter::Hero(v), r)),
            Err(e) => Err(e),
        }
    } else if is_word(base, "HG") || is_word(base, "HeroGlobal") {
        match parse_inner_vec::<(HeroType, Option<u8>)>(rest, true, loader) {
            Ok((v, r)) => Ok((UnitFilter::HeroGlobal(v), r)),
            Err(e) => Err(e),
        }
    } else if is_word(base, "IH") || is_word(base, "IsHero") {
        match parse_inner_vec::<(HeroType, Option<u8>)>(rest, false, loader) {
            Ok((v, r)) => Ok((UnitFilter::IsHero(v), r)),
            Err(e) => Err(e),
        }
    } else if is_word(base, "HC") || is_word(base, "HeroCharge") {
        match parse_tuple1::<Fraction>(rest, loader) {
            Ok((c, r)) => Ok((UnitFilter::HeroCharge(c), r)),
            Err(e) => Err(e),
        }
    } else if is_word(base, "AP") || is_word(base, "AttackPattern") {
        match pattern_types_from_conf(rest, true) {
            Ok((v, r)) => Ok((UnitFilter::AttackPattern(v), r)),
            Err(e) => Err(e),
        }
    } else if is_word(base, "CC") || is_word(base, "CommanderCharge") {
        match parse_tuple1::<u32>(rest, loader) {
            Ok((c, r)) => Ok((UnitFilter::CommanderCharge(c), r)),
            Err(e) => Err(e),
        }
    } else if is_word(base, "Fog") {
        match parse_inner_vec::<FogIntensity>(rest, true, loader) {
            Ok((v, r)) => Ok((UnitFilter::Fog(v), r)),
            Err(e) => Err(e),
        }
    } else if is_word(base, "Moved") {
        Ok((UnitFilter::Moved, rest))
    } else if is_word(base, "Unowned") {
        Ok((UnitFilter::Unowned, rest))
    } else if is_word(base, "Commander") || is_word(base, "Co") {
        match parse_tuple2::<CommanderType, u8>(rest, loader) {
            Ok((c, p, r)) => Ok((UnitFilter::Commander(c, Some(p)), r)),
            Err(_) => match parse_tuple1::<CommanderType>(rest, loader) {
                Ok((c, r)) => Ok((UnitFilter::Commander(c, None), r)),
                Err(e) => Err(e),
            },
        }
    } else if is_word(base, "OwnerTurn") {
        Ok((UnitFilter::OwnerTurn, rest))
    } else if is_word(base, "Carried") {
        Ok((UnitFilter::Carried, rest))
    } else if is_word(base, "Counter") {
        Ok((UnitFilter::Counter, rest))
    } else {
        Err(ConfigParseError::UnknownEnumMember(qualified_text("UnitFilter", base, None)))
    }
}

impl UnitFilter {
    /// Reads a unit filter; see `spec_unit_filter_from_conf`. Script
    /// functions it refers to get registered with the loader.
    pub fn from_conf<'a>(s: &'a [char], loader: &mut FileLoader) -> (r: Result<(UnitFilter, &'a [char]), ConfigParseError>)
        ensures
            (match r { Ok((f, rest)) => Ok((f@, rest@)), Err(e) => Err(e@) }, final(loader)@) == spec_unit_filter_from_conf(s@, old(loader)@),
        decreases s@.len(), 0nat,
    {
        let (base, rest) = string_base(s);
        if is_word(base, "Rhai") || is_word(base, "Script") {
            let (t, bracketed) = open_tuple(rest);
            let (name, after) = match find_separator(t) {
                Some(i) => (trim(prefix(t, i)), suffix(t, i)),
                None => {
                    let empty = suffix(t, t.len());
                    assert(empty@ =~= seq![]);
                    (trim(t), empty)
                },
            };
            match loader.rhai_function(name, 0, 0) {
                Ok(p) => Ok((UnitFilter::Rhai(p.index), close_tuple(after, bracketed))),
                Err(e) => Err(e),
            }
        } else if is_word(base, "OU") || is_word(base, "OtherUnit") || is_word(base, "Not") {
            proof {
                lemma_string_base_shortens(s@);
                reveal_strlit("OU");
                reveal_strlit("OtherUnit");
                reveal_strlit("Not");
            }
            let not = is_word(base, "Not");
            match Self::filter_list(rest, not, loader) {
                Ok((items, rest2)) => {
                    let f = if not { UnitFilter::Not(items) } else { UnitFilter::OtherUnit(items) };
                    Ok((f, rest2))
                },
                Err(e) => Err(e),
            }
        } else {
            plain_filter(base, rest, loader)
        }
    }

    /// Reads a list of unit filters; see `spec_filter_list`.
    pub fn filter_list<'a>(source: &'a [char], needs_content: bool, loader: &mut FileLoader) -> (r: Result<(Vec<UnitFilter>, &'a [char]), ConfigParseError>)
        ensures
            (match r { Ok((v, rest)) => Ok((filters_view(v@), rest@)), Err(e) => Err(e@) }, final(loader)@) == spec_filter_list(source@, needs_content, old(loader)@),
        decreases source@.len(), 2nat,
    {
        proof {
            lemma_open_tuple_shortens(source@);
        }
        let (mut s, bracketed) = open_tuple(source);
        let ghost s0 = s@;
        let mut result: Vec<UnitFilter> = Vec::new();
        assert(filters_view(result@) =~= seq![]);
        loop
            invariant
                spec_filter_items(s0, old(loader)@, bracketed, seq![]) == spec_filter_items(s@, loader@, bracketed, filters_view(result@)),
                (s0, bracketed) == spec_open_tuple(source@),
                s@.len() <= source@.len(),
            decreases s@.len(),
        {
            if s.len() == 0 || (bracketed && s[0] == ')') {
                if s.len() > 0 {
                    s = trim_start(suffix(s, 1));
                }
                if needs_content && result.len() == 0 {
                    return Err(ConfigParseError::EmptyList);
                }
                return Ok((result, s));
            }
            match Self::from_conf(s, loader) {
                Err(e) => {
                    return Err(e);
                },
                Ok((f, rest)) => {
                    let mut r = trim_start(rest);
                    if starts_with_char(r, ',') {
                        r = trim_start(suffix(r, 1));
                    }
                    if r.len() >= s.len() {
                        return Err(ConfigParseError::EmptyList);
                    }
                    let ghost before = result@;
                    result.push(f);
                    assert(result@.drop_last() =~= before);
                    s = r;
                },
            }
        }
    }
}

} // verus!
