use vstd::prelude::*;

use crate::config::file_loader::{spec_rhai_step, FileLoader, LoaderNames};
use crate::config::listing::{is_word, qualified, qualified_text};
use crate::config::parse::{
    close_tuple, lemma_open_tuple_shortens, lemma_string_base_shortens, open_tuple, parse_inner_vec, parse_tuple1, parse_tuple2,
    spec_close_tuple, spec_open_tuple, spec_parse_inner_vec, spec_parse_tuple1, spec_parse_tuple2, spec_string_base,
    spec_string_from_conf, string_base, FromConfig,
};
use crate::config::text::{find_separator, prefix, spec_trim_start, starts_with_char, suffix, trim, trim_start};
use crate::config::{CommanderType, ConfigError, ConfigParseError};
use crate::tags::FlagKey;
use crate::terrain::TerrainType;
use crate::tokens::TokenType;

verus! {

/// A kind of thing on the board that a filter picks by its type: terrain
/// or tokens.
pub trait FilteredKind: FromConfig {
    /// The name of the filter, as errors give it.
    spec fn spec_filter_name() -> Seq<char>;

    fn filter_name() -> (r: &'static str)
        ensures
            r@ == Self::spec_filter_name(),
    ;
}

impl FilteredKind for TerrainType {
    open spec fn spec_filter_name() -> Seq<char> {
        "TerrainFilter"@
    }

    fn filter_name() -> (r: &'static str) {
        "TerrainFilter"
    }
}

impl FilteredKind for TokenType {
    open spec fn spec_filter_name() -> Seq<char> {
        "TokenFilter"@
    }

    fn filter_name() -> (r: &'static str) {
        "TokenFilter"
    }
}

/// A condition on a terrain or a token whose type is `T`, that
/// configuration lines are restricted by.
#[derive(Debug)]
#[verifier::reject_recursive_types(T)]
pub enum KindFilter<T> {
    /// a script function decides
    Rhai(usize),
    /// the owner plays this commander, optionally with this power active
    Commander(CommanderType, Option<u8>),
    /// it is of one of these types
    Type(Vec<T>),
    /// it can have an owner
    Ownable,
    Unowned,
    OwnerTurn,
    /// it has one of these flags
    Flag(Vec<FlagKey>),
    /// at least one of the filters fails
    Not(Vec<KindFilter<T>>),
}

/// A filter on terrain.
pub type TerrainFilter = KindFilter<TerrainType>;

/// A filter on tokens.
pub type TokenFilter = KindFilter<TokenType>;

/// A filter with its lists seen as sets (the nested filters stay in order).
#[verifier::reject_recursive_types(T)]
pub enum KindFilterView<T> {
    Rhai(usize),
    Commander(CommanderType, Option<u8>),
    Type(Set<T>),
    Ownable,
    Unowned,
    OwnerTurn,
    Flag(Set<FlagKey>),
    Not(Seq<KindFilterView<T>>),
}

impl<T> KindFilter<T> {
    pub open spec fn filter_view(&self) -> KindFilterView<T>
        decreases self,
    {
        match self {
            KindFilter::Rhai(i) => KindFilterView::Rhai(*i),
            KindFilter::Commander(c, p) => KindFilterView::Commander(*c, *p),
            KindFilter::Type(v) => KindFilterView::Type(v@.to_set()),
            KindFilter::Ownable => KindFilterView::Ownable,
            KindFilter::Unowned => KindFilterView::Unowned,
            KindFilter::OwnerTurn => KindFilterView::OwnerTurn,
            KindFilter::Flag(v) => KindFilterView::Flag(v@.to_set()),
            KindFilter::Not(l) => KindFilterView::Not(kind_filters_view(l@)),
        }
    }
}

impl<T> View for KindFilter<T> {
    type V = KindFilterView<T>;

    open spec fn view(&self) -> KindFilterView<T> {
        self.filter_view()
    }
}

/// The filters of a list, each seen through its view.
pub open spec fn kind_filters_view<T>(v: Seq<KindFilter<T>>) -> Seq<KindFilterView<T>>
    decreases v,
{
    if v.len() == 0 {
        seq![]
    } else {
        kind_filters_view(v.drop_last()).push(v.last().filter_view())
    }
}

/// A terrain or token filter as the configuration writes it: a script
/// reference in `Rhai(..)` or `Script(..)` (registered with the loader);
/// `Commander` (short `Co`) with a commander type and optionally a power;
/// `Type` (short `T`) with a list of types; `Ownable`, `Unowned`,
/// `OwnerTurn`; `Flag` (short `F`) with a list of flags; `Not(..)` with at
/// least one nested filter. Anything else is `UnknownEnumMember` with the
/// whole text.
pub open spec fn spec_kind_filter_from_conf<T: FilteredKind>(s: Seq<char>, names: LoaderNames) -> (Result<(KindFilterView<T>, Seq<char>), ConfigError>, LoaderNames)
    decreases s.len(), 0nat,
{
    let (base, rest) = spec_string_base(s);
    if base == "Rhai"@ || base == "Script"@ {
        let (t, bracketed) = spec_open_tuple(rest);
        let (name, after) = spec_string_from_conf(t);
        let (f, n) = spec_rhai_step(names, name, 0, 0);
        (match f {
            Ok(p) => Ok((KindFilterView::Rhai(p.index), spec_close_tuple(after, bracketed))),
            Err(e) => Err(e),
        }, n)
    } else if base == "Commander"@ || base == "Co"@ {
        (match spec_parse_tuple2::<CommanderType, u8>(rest, names) {
            Ok((c, p, r)) => Ok((KindFilterView::Commander(c, Some(p)), r)),
            Err(_) => match spec_parse_tuple1::<CommanderType>(rest, names) {
                Ok((c, r)) => Ok((KindFilterView::Commander(c, None), r)),
                Err(e) => Err(e),
            },
        }, names)
    } else if base == "T"@ || base == "Type"@ {
        (match spec_parse_inner_vec::<T>(rest, true, names) {
            Ok((v, r)) => Ok((KindFilterView::Type(v.to_set()), r)),
            Err(e) => Err(e),
        }, names)
    } else if base == "Ownable"@ {
        (Ok((KindFilterView::Ownable, rest)), names)
    } else if base == "Unowned"@ {
        (Ok((KindFilterView::Unowned, rest)), names)
    } else if base == "OwnerTurn"@ {
        (Ok((KindFilterView::OwnerTurn, rest)), names)
    } else if base == "Flag"@ || base == "F"@ {
        (match spec_parse_inner_vec::<FlagKey>(rest, true, names) {
            Ok((v, r)) => Ok((KindFilterView::Flag(v.to_set()), r)),
            Err(e) => Err(e),
        }, names)
    } else if base == "Not"@ {
        proof {
            lemma_string_base_shortens(s);
            reveal_strlit("Not");
        }
        let (r, n) = spec_kind_filter_list::<T>(rest, true, names);
        (match r {
            Ok((items, rest2)) => Ok((KindFilterView::Not(items), rest2)),
            Err(e) => Err(e),
        }, n)
    } else {
        (Err(ConfigError::UnknownEnumMember(qualified(T::spec_filter_name(), s, None))), names)
    }
}

/// The filters of a list that starts with `s`, appended to `acc`, the text
/// after the list, and the loader's names after reading it; see
/// `spec_list_items`.
pub open spec fn spec_kind_filter_items<T: FilteredKind>(s: Seq<char>, names: LoaderNames, stop: bool, acc: Seq<KindFilterView<T>>) -> (Result<(Seq<KindFilterView<T>>, Seq<char>), ConfigError>, LoaderNames)
    decreases s.len(), 1nat,
{
    if s.len() == 0 {
        (Ok((acc, s)), names)
    } else if stop && s[0] == ')' {
        (Ok((acc, spec_trim_start(s.skip(1)))), names)
    } else {
        let (r, n) = spec_kind_filter_from_conf::<T>(s, names);
        match r {
            Err(e) => (Err(e), n),
            Ok((f, rest)) => {
                let t = spec_trim_start(rest);
                let t2 = if t.len() > 0 && t[0] == ',' { spec_trim_start(t.skip(1)) } else { t };
                if t2.len() < s.len() {
                    spec_kind_filter_items::<T>(t2, n, stop, acc.push(f))
                } else {
                    (Err(ConfigError::EmptyList), n)
                }
            },
        }
    }
}

/// A list of filters separated by commas, optionally in brackets; with
/// `needs_content`, an empty list is an error.
pub open spec fn spec_kind_filter_list<T: FilteredKind>(source: Seq<char>, needs_content: bool, names: LoaderNames) -> (Result<(Seq<KindFilterView<T>>, Seq<char>), ConfigError>, LoaderNames)
    decreases source.len(), 2nat,
{
    let (s, bracketed) = spec_open_tuple(source);
    proof {
        lemma_open_tuple_shortens(source);
    }
    let (r, n) = spec_kind_filter_items::<T>(s, names, bracketed, seq![]);
    (match r {
        Err(e) => Err(e),
        Ok((items, rest)) => if needs_content && items.len() == 0 {
            Err(ConfigError::EmptyList)
        } else {
            Ok((items, rest))
        },
    }, n)
}

impl<T: FilteredKind> KindFilter<T> {
    /// Reads a filter; see `spec_kind_filter_from_conf`.
    pub fn from_conf<'a>(s: &'a [char], loader: &mut FileLoader) -> (r: Result<(KindFilter<T>, &'a [char]), ConfigParseError>)
        ensures
            (match r { Ok((f, rest)) => Ok((f@, rest@)), Err(e) => Err(e@) }, final(loader)@) == spec_kind_filter_from_conf::<T>(s@, old(loader)@),
        decreases s@.len(), 0nat,
    {
        let (base, rest) = string_base(s);
        if is_word(base, "Rhai") || is_word(base, "Script") {
            let (t, bracketed) = open_tuple(rest);
            let (name, after) = match find_separator(t) {
                Some(i) => (trim(prefix(t, i)), suffix(t, i)),
                None => {
                    let empty = suffix(t, t.len());
                    assert(empty@ =~= seq![]);
                    (trim(t), empty)
                },
            };
            match loader.rhai_function(name, 0, 0) {
                Ok(p) => Ok((KindFilter::Rhai(p.index), close_tuple(after, bracketed))),
                Err(e) => Err(e),
            }
        } else if is_word(base, "Commander") || is_word(base, "Co") {
            match parse_tuple2::<CommanderType, u8>(rest, loader) {
                Ok((c, p, r)) => Ok((KindFilter::Commander(c, Some(p)), r)),
                Err(_) => match parse_tuple1::<CommanderType>(rest, loader) {
                    Ok((c, r)) => Ok((KindFilter::Commander(c, None), r)),
                    Err(e) => Err(e),
                },
            }
        } else if is_word(base, "T") || is_word(base, "Type") {
            match parse_inner_vec::<T>(rest, true, loader) {
                Ok((v, r)) => Ok((KindFilter::Type(v), r)),
                Err(e) => Err(e),
            }
        } else if is_word(base, "Ownable") {
            Ok((KindFilter::Ownable, rest))
        } else if is_word(base, "Unowned") {
            Ok((KindFilter::Unowned, rest))
        } else if is_word(base, "OwnerTurn") {
            Ok((KindFilter::OwnerTurn, rest))
        } else if is_word(base, "Flag") || is_word(base, "F") {
            match parse_inner_vec::<FlagKey>(rest, true, loader) {
                Ok((v, r)) => Ok((KindFilter::Flag(v), r)),
                Err(e) => Err(e),
            }
        } else if is_word(base, "Not") {
            proof {
                lemma_string_base_shortens(s@);
                reveal_strlit("Not");
            }
            match Self::filter_list(rest, true, loader) {
                Ok((items, rest2)) => Ok((KindFilter::Not(items), rest2)),
                Err(e) => Err(e),
            }
        } else {
            Err(ConfigParseError::UnknownEnumMember(qualified_text(T::filter_name(), s, None)))
        }
    }

    /// Reads a list of filters; see `spec_kind_filter_list`.
    pub fn filter_list<'a>(source: &'a [char], needs_content: bool, loader: &mut FileLoader) -> (r: Result<(Vec<KindFilter<T>>, &'a [char]), ConfigParseError>)
        ensures
            (match r { Ok((v, rest)) => Ok((kind_filters_view(v@), rest@)), Err(e) => Err(e@) }, final(loader)@)
                == spec_kind_filter_list::<T>(source@, needs_content, old(loader)@),
        decreases source@.len(), 2nat,
    {
        proof {
            lemma_open_tuple_shortens(source@);
        }
        let (mut s, bracketed) = open_tuple(source);
        let ghost s0 = s@;
        let mut result: Vec<KindFilter<T>> = Vec::new();
        assert(kind_filters_view(result@) =~= seq![]);
        loop
            invariant
                spec_kind_filter_items::<T>(s0, old(loader)@, bracketed, seq![]) == spec_kind_filter_items::<T>(s@, loader@, bracketed, kind_filters_view(result@)),
                (s0, bracketed) == spec_open_tuple(source@),
                s@.len() <= source@.len(),
            decreases s@.len(),
        {
            if s.len() == 0 || (bracketed && s[0] == ')') {
                if s.len() > 0 {
                    s = trim_start(suffix(s, 1));
                }
                if needs_content && result.len() == 0 {
                    return Err(ConfigParseError::EmptyList);
                }
                return Ok((result, s));
            }
            match Self::from_conf(s, loader) {
                Err(e) => {
                    return Err(e);
                },
                Ok((f, rest)) => {
                    let mut r = trim_start(rest);
                    if starts_with_char(r, ',') {
                        r = trim_start(suffix(r, 1));
                    }
                    if r.len() >= s.len() {
                        return Err(ConfigParseError::EmptyList);
                    }
                    let ghost before = result@;
                    result.push(f);
                    assert(result@.drop_last() =~= before);
                    s = r;
                },
            }
        }
    }
}

} // verus!
