use vstd::prelude::*;

use crate::combat::AttackType;
use crate::config::file_loader::{spec_rhai_step, FileLoader, LoaderNames};
use crate::config::listing::is_word;
use crate::config::parse::{
    close_tuple, lemma_open_tuple_shortens, lemma_string_base_shortens, open_tuple, parse_inner_vec, parse_tuple1, parse_tuple2,
    spec_close_tuple, spec_open_tuple, spec_parse_inner_vec, spec_parse_tuple1, spec_parse_tuple2, spec_string_base,
    spec_string_from_conf, string_base,
};
use crate::config::text::{find_separator, prefix, spec_trim_start, starts_with_char, suffix, trim, trim_start};
use crate::config::unit_filter::{spec_unit_filter_from_conf, UnitFilter, UnitFilterView};
use crate::config::{ConfigError, ConfigParseError};

verus! {

/// A condition on an attack, its splash and the unit it hits, that the
/// attack configuration is restricted by.
#[derive(Debug)]
pub enum AttackFilter {
    /// the attack is of one of these types
    Attack(Vec<AttackType>),
    /// the attack's priority lies between the two values
    AttackPriority(i8, i8),
    /// the splash lies this far from the target, counted from the start
    /// where positive and from the end where negative
    SplashDistance(i32, i32),
    /// the unit passes the filter
    UnitFilter(UnitFilter),
    /// a script function decides
    Rhai(usize),
    /// at least one of the filters fails
    Not(Vec<AttackFilter>),
}

/// An attack filter with its attack types seen as a set.
pub enum AttackFilterView {
    Attack(Set<AttackType>),
    AttackPriority(i8, i8),
    SplashDistance(i32, i32),
    UnitFilter(UnitFilterView),
    Rhai(usize),
    Not(Seq<AttackFilterView>),
}

impl AttackFilter {
    pub open spec fn filter_view(&self) -> AttackFilterView
        decreases self,
    {
        match self {
            AttackFilter::Attack(v) => AttackFilterView::Attack(v@.to_set()),
            AttackFilter::AttackPriority(a, b) => AttackFilterView::AttackPriority(*a, *b),
            AttackFilter::SplashDistance(a, b) => AttackFilterView::SplashDistance(*a, *b),
            AttackFilter::UnitFilter(f) => AttackFilterView::UnitFilter(f@),
            AttackFilter::Rhai(i) => AttackFilterView::Rhai(*i),
            AttackFilter::Not(l) => AttackFilterView::Not(attack_filters_view(l@)),
        }
    }
}

impl View for AttackFilter {
    type V = AttackFilterView;

    open spec fn view(&self) -> AttackFilterView {
        self.filter_view()
    }
}

/// The filters of a list, each seen through its view.
pub open spec fn attack_filters_view(v: Seq<AttackFilter>) -> Seq<AttackFilterView>
    decreases v,
{
    if v.len() == 0 {
        seq![]
    } else {
        attack_filters_view(v.drop_last()).push(v.last().filter_view())
    }
}

/// An attack filter as the configuration writes it: `AttackType(..)`
/// (short `AT`) with a list of attack types; `AttackPriority` or
/// `SplashDistance` with a minimum and maximum, or with one value for both;
/// a script reference in `Rhai(..)` or `Script(..)` (registered with the
/// loader); `Not(..)` with at least one nested filter; anything else is read
/// as a unit filter.
pub open spec fn spec_attack_filter_from_conf(s: Seq<char>, names: LoaderNames) -> (Result<(AttackFilterView, Seq<char>), ConfigError>, LoaderNames)
    decreases s.len(), 0nat,
{
    let (base, rest) = spec_string_base(s);
    if base == "AttackType"@ || base == "AT"@ {
        (match spec_parse_inner_vec::<AttackType>(rest, true, names) {
            Ok((v, r)) => Ok((AttackFilterView::Attack(v.to_set()), r)),
            Err(e) => Err(e),
        }, names)
    } else if base == "AttackPriority"@ {
        (match spec_parse_tuple2::<i8, i8>(rest, names) {
            Ok((min, max, r)) => Ok((AttackFilterView::AttackPriority(min, max), r)),
            Err(_) => match spec_parse_tuple1::<i8>(rest, names) {
                Ok((v, r)) => Ok((AttackFilterView::AttackPriority(v, v), r)),
                Err(e) => Err(e),
            },
        }, names)
    } else if base == "SplashDistance"@ {
        (match spec_parse_tuple2::<i32, i32>(rest, names) {
            Ok((min, max, r)) => Ok((AttackFilterView::SplashDistance(min, max), r)),
            Err(_) => match spec_parse_tuple1::<i32>(rest, names) {
                Ok((v, r)) => Ok((AttackFilterView::SplashDistance(v, v), r)),
                Err(e) => Err(e),
            },
        }, names)
    } else if base == "Rhai"@ || base == "Script"@ {
        let (t, bracketed) = spec_open_tuple(rest);
        let (name, after) = spec_string_from_conf(t);
        let (f, n) = spec_rhai_step(names, name, 0, 0);
        (match f {
            Ok(p) => Ok((AttackFilterView::Rhai(p.index), spec_close_tuple(after, bracketed))),
            Err(e) => Err(e),
        }, n)
    } else if base == "Not"@ {
        proof {
            lemma_string_base_shortens(s);
            reveal_strlit("Not");
        }
        let (r, n) = spec_attack_filter_list(rest, true, names);
        (match r {
            Ok((items, rest2)) => Ok((AttackFilterView::Not(items), rest2)),
            Err(e) => Err(e),
        }, n)
    } else {
        let (r, n) = spec_unit_filter_from_conf(s, names);
        (match r {
            Ok((f, rest2)) => Ok((AttackFilterView::UnitFilter(f), rest2)),
            Err(e) => Err(e),
        }, n)
    }
}

/// The attack filters of a list that starts with `s`, appended to `acc`,
/// the text after the list, and the loader's names after reading it; see
/// `spec_list_items`.
pub open spec fn spec_attack_filter_items(s: Seq<char>, names: LoaderNames, stop: bool, acc: Seq<AttackFilterView>) -> (Result<(Seq<AttackFilterView>, Seq<char>), ConfigError>, LoaderNames)
    decreases s.len(), 1nat,
{
    if s.len() == 0 {
        (Ok((acc, s)), names)
    } else if stop && s[0] == ')' {
        (Ok((acc, spec_trim_start(s.skip(1)))), names)
    } else {
        let (r, n) = spec_attack_filter_from_conf(s, names);
        match r {
            Err(e) => (Err(e), n),
            Ok((f, rest)) => {
                let t = spec_trim_start(rest);
                let t2 = if t.len() > 0 && t[0] == ',' { spec_trim_start(t.skip(1)) } else { t };
                if t2.len() < s.len() {
                    spec_attack_filter_items(t2, n, stop, acc.push(f))
                } else {
                    (Err(ConfigError::EmptyList), n)
                }
            },
        }
    }
}

/// A list of attack filters separated by commas, optionally in brackets;
/// with `needs_content`, an empty list is an error.
pub open spec fn spec_attack_filter_list(source: Seq<char>, needs_content: bool, names: LoaderNames) -> (Result<(Seq<AttackFilterView>, Seq<char>), ConfigError>, LoaderNames)
    decreases source.len(), 2nat,
{
    let (s, bracketed) = spec_open_tuple(source);
    proof {
        lemma_open_tuple_shortens(source);
    }
    let (r, n) = spec_attack_filter_items(s, names, bracketed, seq![]);
    (match r {
        Err(e) => Err(e),
        Ok((items, rest)) => if needs_content && items.len() == 0 {
            Err(ConfigError::EmptyList)
        } else {
            Ok((items, rest))
        },
    }, n)
}

impl AttackFilter {
    /// Reads an attack filter; see `spec_attack_filter_from_conf`.
    pub fn from_conf<'a>(s: &'a [char], loader: &mut FileLoader) -> (r: Result<(AttackFilter, &'a [char]), ConfigParseError>)
        ensures
            (match r { Ok((f, rest)) => Ok((f@, rest@)), Err(e) => Err(e@) }, final(loader)@) == spec_attack_filter_from_conf(s@, old(loader)@),
        decreases s@.len(), 0nat,
    {
        let (base, rest) = string_base(s);
        if is_word(base, "AttackType") || is_word(base, "AT") {
            match parse_inner_vec::<AttackType>(rest, true, loader) {
                Ok((v, r)) => Ok((AttackFilter::Attack(v), r)),
                Err(e) => Err(e),
            }
        } else if is_word(base, "AttackPriority") {
            match parse_tuple2::<i8, i8>(rest, loader) {
                Ok((min, max, r)) => Ok((AttackFilter::AttackPriority(min, max), r)),
                Err(_) => match parse_tuple1::<i8>(rest, loader) {
                    Ok((v, r)) => Ok((AttackFilter::AttackPriority(v, v), r)),
                    Err(e) => Err(e),
                },
            }
        } else if is_word(base, "SplashDistance") {
            match parse_tuple2::<i32, i32>(rest, loader) {
                Ok((min, max, r)) => Ok((AttackFilter::SplashDistance(min, max), r)),
                Err(_) => match parse_tuple1::<i32>(rest, loader) {
                    Ok((v, r)) => Ok((AttackFilter::SplashDistance(v, v), r)),
                    Err(e) => Err(e),
                },
            }
        } else if is_word(base, "Rhai") || is_word(base, "Script") {
            let (t, bracketed) = open_tuple(rest);
            let (name, after) = match find_separator(t) {
                Some(i) => (trim(prefix(t, i)), suffix(t, i)),
                None => {
                    let empty = suffix(t, t.len());
                    assert(empty@ =~= seq![]);
                    (trim(t), empty)
                },
            };
            match loader.rhai_function(name, 0, 0) {
                Ok(p) => Ok((AttackFilter::Rhai(p.index), close_tuple(after, bracketed))),
                Err(e) => Err(e),
            }
        } else if is_word(base, "Not") {
            proof {
                lemma_string_base_shortens(s@);
                reveal_strlit("Not");
            }
            match Self::filter_list(rest, true, loader) {
                Ok((items, rest2)) => Ok((AttackFilter::Not(items), rest2)),
                Err(e) => Err(e),
            }
        } else {
            match UnitFilter::from_conf(s, loader) {
                Ok((f, rest2)) => Ok((AttackFilter::UnitFilter(f), rest2)),
                Err(e) => Err(e),
            }
        }
    }

    /// Reads a list of attack filters; see `spec_attack_filter_list`.
    pub fn filter_list<'a>(source: &'a [char], needs_content: bool, loader: &mut FileLoader) -> (r: Result<(Vec<AttackFilter>, &'a [char]), ConfigParseError>)
        ensures
            (match r { Ok((v, rest)) => Ok((attack_filters_view(v@), rest@)), Err(e) => Err(e@) }, final(loader)@)
                == spec_attack_filter_list(source@, needs_content, old(loader)@),
        decreases source@.len(), 2nat,
    {
        proof {
            lemma_open_tuple_shortens(source@);
        }
        let (mut s, bracketed) = open_tuple(source);
        let ghost s0 = s@;
        let mut result: Vec<AttackFilter> = Vec::new();
        assert(attack_filters_view(result@) =~= seq![]);
        loop
            invariant
                spec_attack_filter_items(s0, old(loader)@, bracketed, seq![]) == spec_attack_filter_items(s@, loader@, bracketed, attack_filters_view(result@)),
                (s0, bracketed) == spec_open_tuple(source@),
                s@.len() <= source@.len(),
            decreases s@.len(),
        {
            if s.len() == 0 || (bracketed && s[0] == ')') {
                if s.len() > 0 {
                    s = trim_start(suffix(s, 1));
                }
                if needs_content && result.len() == 0 {
                    return Err(ConfigParseError::EmptyList);
                }
                return Ok((result, s));
            }
            match Self::from_conf(s, loader) {
                Err(e) => {
                    return Err(e);
                },
                Ok((f, rest)) => {
                    let mut r = trim_start(rest);
                    if starts_with_char(r, ',') {
                        r = trim_start(suffix(r, 1));
                    }
                    if r.len() >= s.len() {
                        return Err(ConfigParseError::EmptyList);
                    }
                    let ghost before = result@;
                    result.push(f);
                    assert(result@.drop_last() =~= before);
                    s = r;
                },
            }
        }
    }
}

} // verus!
