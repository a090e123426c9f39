use vstd::prelude::*;

use crate::config::file_loader::{spec_rhai_step, FileLoader, LoaderNames};
use crate::config::listing::{first_named, is_word, position_of, qualified, qualified_text};
use crate::config::parse::{
    close_tuple, open_tuple, parse_inner_vec, parse_tuple2, spec_close_tuple, spec_open_tuple, spec_parse_inner_vec,
    spec_parse_tuple2, spec_string_base, spec_string_from_conf, string_base, FromConfig,
};
use crate::config::text::{find_separator, prefix, spec_trim_start, starts_with_char, suffix, to_string, trim, trim_start};
use crate::config::{ConfigError, ConfigParseError};
use crate::direction::{index_add, Direction};
use crate::fraction::Fraction;
use crate::movement::TBallast;
use crate::splash_damage::{find_tag_direction, tag_direction};
use crate::tags::TagKey;

verus! {

/// The fields a unit can attack from where it stands.
#[derive(Debug, Clone, PartialEq, Eq)]
pub enum AttackPattern {
    /// the unit can't attack
    NoAttack,
    /// the neighboring fields
    Adjacent,
    /// a line between `min` and `max` fields away, which units in the way
    /// can block
    Straight { min: Fraction, max: Fraction },
    /// widening layers along the diagonals, between `min` and `max`
    TriangleDiagonal { min: Fraction, max: Fraction },
    /// widening layers straight ahead, between `min` and `max`
    TriangleStraight { min: Fraction, max: Fraction },
    /// a script function with these argument values
    Rhai { function_index: usize, parameter_values: Vec<Fraction> },
}

/// An attack pattern with its argument values as a sequence.
pub enum AttackPatternView {
    NoAttack,
    Adjacent,
    Straight { min: Fraction, max: Fraction },
    TriangleDiagonal { min: Fraction, max: Fraction },
    TriangleStraight { min: Fraction, max: Fraction },
    Rhai { function_index: usize, parameter_values: Seq<Fraction> },
}

impl View for AttackPattern {
    type V = AttackPatternView;

    open spec fn view(&self) -> AttackPatternView {
        match *self {
            AttackPattern::NoAttack => AttackPatternView::NoAttack,
            AttackPattern::Adjacent => AttackPatternView::Adjacent,
            AttackPattern::Straight { min, max } => AttackPatternView::Straight { min, max },
            AttackPattern::TriangleDiagonal { min, max } => AttackPatternView::TriangleDiagonal { min, max },
            AttackPattern::TriangleStraight { min, max } => AttackPatternView::TriangleStraight { min, max },
            AttackPattern::Rhai { function_index, parameter_values } => AttackPatternView::Rhai { function_index, parameter_values: parameter_values@ },
        }
    }
}

/// An attack pattern as the configuration writes it: `None`, `Adjacent`,
/// one of the ranged patterns followed by its minimum and maximum, or else
/// a script reference (the leading word) followed by a list of argument
/// values; the script function must take as many parameters as there are
/// values.
pub open spec fn spec_attack_pattern_from_conf(s: Seq<char>, names: LoaderNames) -> (Result<(AttackPatternView, Seq<char>), ConfigError>, LoaderNames) {
    let (base, rest) = spec_string_base(s);
    if base == "None"@ {
        (Ok((AttackPatternView::NoAttack, rest)), names)
    } else if base == "Adjacent"@ {
        (Ok((AttackPatternView::Adjacent, rest)), names)
    } else if base == "Straight"@ || base == "TriangleDiagonal"@ || base == "TriangleStraight"@ {
        (match spec_parse_tuple2::<Fraction, Fraction>(rest, names) {
            Err(e) => Err(e),
            Ok((min, max, rest2)) => Ok((
                if base == "Straight"@ {
                    AttackPatternView::Straight { min, max }
                } else if base == "TriangleDiagonal"@ {
                    AttackPatternView::TriangleDiagonal { min, max }
                } else {
                    AttackPatternView::TriangleStraight { min, max }
                },
                rest2,
            )),
        }, names)
    } else {
        match spec_parse_inner_vec::<Fraction>(rest, false, names) {
            Err(e) => (Err(e), names),
            Ok((values, rest2)) => {
                let (f, n) = spec_rhai_step(names, base, values.len(), values.len());
                (match f {
                    Ok(p) => Ok((AttackPatternView::Rhai { function_index: p.index, parameter_values: values }, rest2)),
                    Err(e) => Err(e),
                }, n)
            },
        }
    }
}

impl AttackPattern {
    /// Reads an attack pattern; a script function gets registered with the
    /// loader.
    pub fn from_conf<'a>(s: &'a [char], loader: &mut FileLoader) -> (r: Result<(AttackPattern, &'a [char]), ConfigParseError>)
        ensures
            (match r { Ok((p, rest)) => Ok((p@, rest@)), Err(e) => Err(e@) }, final(loader)@) == spec_attack_pattern_from_conf(s@, old(loader)@),
    {
        let (base, rest) = string_base(s);
        if is_word(base, "None") {
            return Ok((AttackPattern::NoAttack, rest));
        }
        if is_word(base, "Adjacent") {
            return Ok((AttackPattern::Adjacent, rest));
        }
        let straight = is_word(base, "Straight");
        let diagonal = is_word(base, "TriangleDiagonal");
        if straight || diagonal || is_word(base, "TriangleStraight") {
            return match parse_tuple2::<Fraction, Fraction>(rest, loader) {
                Err(e) => Err(e),
                Ok((min, max, rest2)) => {
                    let p = if straight {
                        AttackPattern::Straight { min, max }
                    } else if diagonal {
                        AttackPattern::TriangleDiagonal { min, max }
                    } else {
                        AttackPattern::TriangleStraight { min, max }
                    };
                    Ok((p, rest2))
                },
            };
        }
        match parse_inner_vec::<Fraction>(rest, false, loader) {
            Err(e) => Err(e),
            Ok((values, rest2)) => {
                let count = values.len();
                match loader.rhai_function(base, count, count) {
                    Ok(p) => Ok((AttackPattern::Rhai { function_index: p.index, parameter_values: values }, rest2)),
                    Err(e) => Err(e),
                }
            },
        }
    }
}

/// The directions a unit may aim an attack in.
#[derive(Debug, Clone, Copy, PartialEq, Eq, Structural)]
pub enum AllowedAttackInputDirectionSource {
    /// every direction
    AllDirections,
    /// the directions its movement left it facing
    Movement,
    /// the direction it holds under this tag
    UnitTag(TagKey),
}

/// The attack directions as the configuration writes them:
/// `AllDirections`, `Movement` or `Tag` followed by a tag name, optionally
/// in brackets; an unknown tag or word is `UnknownEnumMember`.
pub open spec fn spec_attack_direction_from_conf(s: Seq<char>, names: LoaderNames) -> Result<(AllowedAttackInputDirectionSource, Seq<char>), ConfigError> {
    let (base, rest) = spec_string_base(s);
    if base == "AllDirections"@ {
        Ok((AllowedAttackInputDirectionSource::AllDirections, rest))
    } else if base == "Movement"@ {
        Ok((AllowedAttackInputDirectionSource::Movement, rest))
    } else if base == "Tag"@ {
        let (t, bracketed) = spec_open_tuple(rest);
        let (tag, after) = spec_string_from_conf(t);
        match first_named(names.tags, tag) {
            Some(i) => Ok((AllowedAttackInputDirectionSource::UnitTag(TagKey(i as usize)), spec_close_tuple(after, bracketed))),
            None => Err(ConfigError::UnknownEnumMember(qualified("Tag"@, tag, None))),
        }
    } else {
        Err(ConfigError::UnknownEnumMember(qualified("AllowedAttackInputDirectionSource"@, base, None)))
    }
}

/// Whether a ballast entry of a path lets the unit face the direction
/// with index `i`: the direction it last stepped in, or the opposite of the
/// one it may not step back in.
pub open spec fn ballast_faces<D: Direction>(b: TBallast<D>, i: nat) -> bool {
    match b {
        TBallast::ForbiddenDirection(Some(d)) => index_add(d.index() as int, (D::spec_count() / 2) as int, D::spec_count()) == i,
        TBallast::Direction(Some(d)) => d.index() == i,
        TBallast::DiagonalDirection(Some(d)) => d.index() == i,
        _ => false,
    }
}

/// Whether some entry of the ballast lets the unit face direction `i`.
pub open spec fn movement_faces<D: Direction>(ballast: Seq<TBallast<D>>, i: nat) -> bool {
    exists|k: int| 0 <= k < ballast.len() && #[trigger] ballast_faces(ballast[k], i)
}

/// The directions in `r` come in increasing order, and they are exactly the
/// directions that `faces` holds of.
pub open spec fn sorted_directions<D: Direction>(r: Seq<D>, faces: spec_fn(nat) -> bool) -> bool {
    &&& forall|j: int, k: int| 0 <= j < k < r.len() ==> (#[trigger] r[j]).index() < (#[trigger] r[k]).index()
    &&& forall|j: int| 0 <= j < r.len() ==> faces((#[trigger] r[j]).index())
    &&& forall|i: nat| i < D::spec_count() && #[trigger] faces(i) ==> exists|j: int| 0 <= j < r.len() && (#[trigger] r[j]).index() == i
}

impl FromConfig for AllowedAttackInputDirectionSource {
    /// Where an attack may be aimed; see `spec_attack_direction_from_conf`.
    open spec fn spec_from_conf(s: Seq<char>, names: LoaderNames) -> Result<(AllowedAttackInputDirectionSource, Seq<char>), ConfigError> {
        spec_attack_direction_from_conf(s, names)
    }

    fn from_conf<'a>(s: &'a [char], loader: &FileLoader) -> (r: Result<(AllowedAttackInputDirectionSource, &'a [char]), ConfigParseError>) {
        let (base, rest) = string_base(s);
        if is_word(base, "AllDirections") {
            Ok((AllowedAttackInputDirectionSource::AllDirections, rest))
        } else if is_word(base, "Movement") {
            Ok((AllowedAttackInputDirectionSource::Movement, rest))
        } else if is_word(base, "Tag") {
            let (t, bracketed) = open_tuple(rest);
            let (tag, after) = match find_separator(t) {
                Some(i) => (trim(prefix(t, i)), suffix(t, i)),
                None => {
                    let empty = suffix(t, t.len());
                    assert(empty@ =~= seq![]);
                    (trim(t), empty)
                },
            };
            match position_of(loader.tags_names(), tag) {
                Some(i) => Ok((AllowedAttackInputDirectionSource::UnitTag(TagKey(i)), close_tuple(after, bracketed))),
                None => Err(ConfigParseError::UnknownEnumMember(qualified_text("Tag", tag, None))),
            }
        } else {
            Err(ConfigParseError::UnknownEnumMember(qualified_text("AllowedAttackInputDirectionSource", base, None)))
        }
    }
}

impl AllowedAttackInputDirectionSource {
    /// The directions the unit may aim an attack in: every direction; the
    /// directions its path lets it face, in the order of `D::list()`; or the
    /// one it holds under the tag (none if it holds no direction there).
    /// `direction_tags` are the unit's tags that hold directions and
    /// `temporary_ballast` is the ballast of the path it moved.
    pub fn get_dirs<D: Direction>(&self, direction_tags: &[(usize, D)], temporary_ballast: &[TBallast<D>]) -> (r: Vec<D>)
        ensures
            match *self {
                AllowedAttackInputDirectionSource::AllDirections => r.len() == D::spec_count()
                    && forall|i: int| 0 <= i < r.len() ==> (#[trigger] r[i]).index() == i,
                AllowedAttackInputDirectionSource::Movement => sorted_directions(r@, |i: nat| movement_faces(temporary_ballast@, i)),
                AllowedAttackInputDirectionSource::UnitTag(k) => match tag_direction(direction_tags@, k.0) {
                    Some(d) => r@ == seq![d],
                    None => r@ == Seq::<D>::empty(),
                },
            },
    {
        match self {
            AllowedAttackInputDirectionSource::AllDirections => D::list(),
            AllowedAttackInputDirectionSource::Movement => movement_directions(temporary_ballast),
            AllowedAttackInputDirectionSource::UnitTag(k) => {
                let mut v: Vec<D> = Vec::new();
                if let Some(d) = find_tag_direction(direction_tags, k.0) {
                    v.push(d);
                }
                v
            },
        }
    }
}

/// The directions that a path's ballast lets a unit face, each once, in
/// the order of `D::list()`.
pub fn movement_directions<D: Direction>(ballast: &[TBallast<D>]) -> (r: Vec<D>)
    ensures
        sorted_directions(r@, |i: nat| movement_faces(ballast@, i)),
{
    proof {
        D::lemma_numbering();
    }
    let n = D::count();
    let mut marks: Vec<bool> = Vec::new();
    let mut i: usize = 0;
    while i < n
        invariant
            i <= n,
            n == D::spec_count(),
            marks.len() == i,
            forall|j: int| 0 <= j < i ==> !marks[j],
        decreases n - i,
    {
        marks.push(false);
        i += 1;
    }
    let mut k: usize = 0;
    while k < ballast.len()
        invariant
            k <= ballast.len(),
            n == D::spec_count(),
            n >= 4,
            marks.len() == n,
            forall|d: D| #[trigger] d.index() < D::spec_count(),
            forall|j: int| 0 <= j < n ==> marks[j] == exists|q: int| 0 <= q < k && #[trigger] ballast_faces(ballast@[q], j as nat),
        decreases ballast.len() - k,
    {
        let ghost before = marks@;
        let target: Option<usize> = match ballast[k] {
            TBallast::ForbiddenDirection(Some(d)) => Some(d.opposite_direction().list_index()),
            TBallast::Direction(Some(d)) => Some(d.list_index()),
            TBallast::DiagonalDirection(Some(d)) => Some(d.list_index()),
            _ => None,
        };
        proof {
            assert forall|j: nat| #[trigger] ballast_faces(ballast@[k as int], j) <==> (target matches Some(t) && t as nat == j) by {
                match ballast@[k as int] {
                    TBallast::ForbiddenDirection(Some(d)) => {
                        assert(index_add(d.index() as int, (D::spec_count() / 2) as int, D::spec_count()) < D::spec_count());
                    },
                    _ => {},
                }
            }
        }
        if let Some(t) = target {
            marks.set(t, true);
        }
        proof {
            assert forall|j: int| 0 <= j < n implies marks[j] == exists|q: int| 0 <= q < k + 1 && #[trigger] ballast_faces(ballast@[q], j as nat) by {
                if marks[j] {
                    if before[j] {
                        let q = choose|q: int| 0 <= q < k && #[trigger] ballast_faces(ballast@[q], j as nat);
                        assert(0 <= q < k + 1 && ballast_faces(ballast@[q], j as nat));
                    } else {
                        assert(ballast_faces(ballast@[k as int], j as nat));
                    }
                } else {
                    assert(!before[j]);
                    assert(!ballast_faces(ballast@[k as int], j as nat));
                    assert forall|q: int| 0 <= q < k + 1 implies !#[trigger] ballast_faces(ballast@[q], j as nat) by {
                        if q < k {
                        }
                    }
                }
            }
        }
        k += 1;
    }
    let all = D::list();
    let mut r: Vec<D> = Vec::new();
    let mut i: usize = 0;
    while i < n
        invariant
            i <= n,
            n == D::spec_count(),
            all.len() == n,
            marks.len() == n,
            forall|j: int| 0 <= j < all.len() ==> (#[trigger] all[j]).index() == j,
            forall|j: int| 0 <= j < n ==> marks[j] == movement_faces(ballast@, j as nat),
            forall|a: int, b: int| 0 <= a < b < r.len() ==> (#[trigger] r[a]).index() < (#[trigger] r[b]).index(),
            forall|a: int| 0 <= a < r.len() ==> (#[trigger] r[a]).index() < i && movement_faces(ballast@, r[a].index()),
            forall|j: nat| j < i && #[trigger] movement_faces(ballast@, j) ==> exists|a: int| 0 <= a < r.len() && (#[trigger] r[a]).index() == j,
        decreases n - i,
    {
        if marks[i] {
            let ghost before = r@;
            r.push(all[i]);
            proof {
                assert(r[r.len() - 1].index() == i);
                assert forall|j: nat| j < i + 1 && #[trigger] movement_faces(ballast@, j) implies exists|a: int| 0 <= a < r.len() && (#[trigger] r[a]).index() == j by {
                    if j < i {
                        let a = choose|a: int| 0 <= a < before.len() && (#[trigger] before[a]).index() == j;
                        assert(r[a] == before[a]);
                    } else {
                        assert(r[r.len() - 1].index() == j);
                    }
                }
            }
        } else {
            proof {
                assert forall|j: nat| j < i + 1 && #[trigger] movement_faces(ballast@, j) implies exists|a: int| 0 <= a < r.len() && (#[trigger] r[a]).index() == j by {
                    if j == i {
                        assert(marks[i as int] == movement_faces(ballast@, i as nat));
                    }
                }
            }
        }
        i += 1;
    }
    r
}

/// The kind of an attack pattern, as unit filters name it: one of the
/// built-in patterns, or a script pattern by its name.
#[derive(Debug, Clone, PartialEq, Eq, Hash)]
pub enum AttackPatternType {
    NoAttack,
    Adjacent,
    Straight,
    TriangleDiagonal,
    TriangleStraight,
    Custom(String),
}

/// The kind of an attack pattern, with a script pattern's name as a
/// sequence.
pub enum AttackPatternTypeView {
    NoAttack,
    Adjacent,
    Straight,
    TriangleDiagonal,
    TriangleStraight,
    Custom(Seq<char>),
}

impl View for AttackPatternType {
    type V = AttackPatternTypeView;

    open spec fn view(&self) -> AttackPatternTypeView {
        match self {
            AttackPatternType::NoAttack => AttackPatternTypeView::NoAttack,
            AttackPatternType::Adjacent => AttackPatternTypeView::Adjacent,
            AttackPatternType::Straight => AttackPatternTypeView::Straight,
            AttackPatternType::TriangleDiagonal => AttackPatternTypeView::TriangleDiagonal,
            AttackPatternType::TriangleStraight => AttackPatternTypeView::TriangleStraight,
            AttackPatternType::Custom(name) => AttackPatternTypeView::Custom(name@),
        }
    }
}

pub open spec fn pattern_types_view(v: Seq<AttackPatternType>) -> Seq<AttackPatternTypeView> {
    v.map_values(|t: AttackPatternType| t@)
}

/// The kind of attack pattern that `s` starts with: `None` or one of the
/// built-in names, or else the leading word as a script pattern's name.
pub open spec fn spec_pattern_type_from_conf(s: Seq<char>) -> (AttackPatternTypeView, Seq<char>) {
    let (base, rest) = spec_string_base(s);
    (if base == "None"@ {
        AttackPatternTypeView::NoAttack
    } else if base == "Adjacent"@ {
        AttackPatternTypeView::Adjacent
    } else if base == "Straight"@ {
        AttackPatternTypeView::Straight
    } else if base == "TriangleDiagonal"@ {
        AttackPatternTypeView::TriangleDiagonal
    } else if base == "TriangleStraight"@ {
        AttackPatternTypeView::TriangleStraight
    } else {
        AttackPatternTypeView::Custom(base)
    }, rest)
}

/// Reads the kind of attack pattern that `s` starts with.
pub fn pattern_type_from_conf(s: &[char]) -> (r: (AttackPatternType, &[char]))
    ensures
        (r.0@, r.1@) == spec_pattern_type_from_conf(s@),
{
    let (base, rest) = string_base(s);
    let t = if is_word(base, "None") {
        AttackPatternType::NoAttack
    } else if is_word(base, "Adjacent") {
        AttackPatternType::Adjacent
    } else if is_word(base, "Straight") {
        AttackPatternType::Straight
    } else if is_word(base, "TriangleDiagonal") {
        AttackPatternType::TriangleDiagonal
    } else if is_word(base, "TriangleStraight") {
        AttackPatternType::TriangleStraight
    } else {
        AttackPatternType::Custom(to_string(base))
    };
    (t, rest)
}

/// The kinds of attack pattern of a list that starts with `s`, appended to
/// `acc`, and the text after the list; see `spec_list_items`.
pub open spec fn spec_pattern_type_items(s: Seq<char>, stop: bool, acc: Seq<AttackPatternTypeView>) -> Result<(Seq<AttackPatternTypeView>, Seq<char>), ConfigError>
    decreases s.len(),
{
    if s.len() == 0 {
        Ok((acc, s))
    } else if stop && s[0] == ')' {
        Ok((acc, spec_trim_start(s.skip(1))))
    } else {
        let (t, rest) = spec_pattern_type_from_conf(s);
        let r = spec_trim_start(rest);
        let r2 = if r.len() > 0 && r[0] == ',' { spec_trim_start(r.skip(1)) } else { r };
        if r2.len() < s.len() {
            spec_pattern_type_items(r2, stop, acc.push(t))
        } else {
            Err(ConfigError::EmptyList)
        }
    }
}

/// A list of kinds of attack pattern separated by commas, optionally in
/// brackets; with `needs_content`, an empty list is an error.
pub open spec fn spec_pattern_type_list(source: Seq<char>, needs_content: bool) -> Result<(Seq<AttackPatternTypeView>, Seq<char>), ConfigError> {
    let (s, bracketed) = spec_open_tuple(source);
    match spec_pattern_type_items(s, bracketed, seq![]) {
        Err(e) => Err(e),
        Ok((items, rest)) => if needs_content && items.len() == 0 {
            Err(ConfigError::EmptyList)
        } else {
            Ok((items, rest))
        },
    }
}

/// Reads a list of kinds of attack pattern.
pub fn pattern_types_from_conf<'a>(source: &'a [char], needs_content: bool) -> (r: Result<(Vec<AttackPatternType>, &'a [char]), ConfigParseError>)
    ensures
        match r {
            Ok((v, rest)) => spec_pattern_type_list(source@, needs_content) == Ok::<(Seq<AttackPatternTypeView>, Seq<char>), ConfigError>((pattern_types_view(v@), rest@)),
            Err(e) => spec_pattern_type_list(source@, needs_content) == Err::<(Seq<AttackPatternTypeView>, Seq<char>), ConfigError>(e@),
        },
{
    let (mut s, bracketed) = open_tuple(source);
    let ghost s0 = s@;
    let mut result: Vec<AttackPatternType> = Vec::new();
    assert(pattern_types_view(result@) =~= seq![]);
    loop
        invariant
            spec_pattern_type_items(s0, bracketed, seq![]) == spec_pattern_type_items(s@, bracketed, pattern_types_view(result@)),
            (s0, bracketed) == spec_open_tuple(source@),
        decreases s@.len(),
    {
        if s.len() == 0 || (bracketed && s[0] == ')') {
            if s.len() > 0 {
                s = trim_start(suffix(s, 1));
            }
            if needs_content && result.len() == 0 {
                return Err(ConfigParseError::EmptyList);
            }
            return Ok((result, s));
        }
        let (t, rest) = pattern_type_from_conf(s);
        let mut r = trim_start(rest);
        if starts_with_char(r, ',') {
            r = trim_start(suffix(r, 1));
        }
        if r.len() >= s.len() {
            return Err(ConfigParseError::EmptyList);
        }
        let ghost before = pattern_types_view(result@);
        result.push(t);
        assert(pattern_types_view(result@) =~= before.push(t@));
        s = r;
    }
}

impl AttackPattern {
    /// The kind of this pattern; a script pattern is named after its
    /// function, looked up in `functions`, the registered script functions
    /// (each with the position of its file and its name).
    pub fn typ(&self, functions: &Vec<(usize, Vec<char>)>) -> (r: AttackPatternType)
        requires
            self matches AttackPattern::Rhai { function_index, .. } ==> function_index < functions.len(),
        ensures
            r@ == match *self {
                AttackPattern::NoAttack => AttackPatternTypeView::NoAttack,
                AttackPattern::Adjacent => AttackPatternTypeView::Adjacent,
                AttackPattern::Straight { .. } => AttackPatternTypeView::Straight,
                AttackPattern::TriangleDiagonal { .. } => AttackPatternTypeView::TriangleDiagonal,
                AttackPattern::TriangleStraight { .. } => AttackPatternTypeView::TriangleStraight,
                AttackPattern::Rhai { function_index, .. } => AttackPatternTypeView::Custom(functions@[function_index as int].1@),
            },
    {
        match self {
            AttackPattern::NoAttack => AttackPatternType::NoAttack,
            AttackPattern::Adjacent => AttackPatternType::Adjacent,
            AttackPattern::Straight { .. } => AttackPatternType::Straight,
            AttackPattern::TriangleDiagonal { .. } => AttackPatternType::TriangleDiagonal,
            AttackPattern::TriangleStraight { .. } => AttackPatternType::TriangleStraight,
            AttackPattern::Rhai { function_index, .. } => AttackPatternType::Custom(to_string(functions[*function_index].1.as_slice())),
        }
    }
}

} // verus!
