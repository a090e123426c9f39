use vstd::prelude::*;

use crate::attack_pattern::{AttackPatternType, AttackPatternTypeView};
use crate::config::listing::str_chars;
use crate::config::matrix::{contains_key, HeaderKey};
use crate::config::movement_type_config::MovementPattern;
use crate::config::text::text_eq;
use crate::config::unit_filter::{filters_view, UnitFilter, UnitFilterView};
use crate::config::global_events::{GlobalEventType, GlobalEventTypeView};
use crate::config::kind_filter::{kind_filters_view, KindFilter, KindFilterView};
use crate::config::CommanderType;
use crate::fog::FogIntensity;
use crate::fraction::Fraction;
use crate::tags::{FlagKey, TagKey};
use crate::terrain::TerrainType;
use crate::tokens::TokenType;
use crate::units::{HeroType, MovementType, UnitType};

verus! {

/// What a unit filter looks at of a unit and of the game around it.
pub struct UnitFacts {
    pub typ: UnitType,
    pub owner: i8,
    /// the owner whose turn it is
    pub current_owner: i8,
    /// the flags the unit has
    pub flags: Vec<FlagKey>,
    /// the tags the unit has a value for
    pub tags: Vec<TagKey>,
    pub movement_type: MovementType,
    pub sub_movement_type: MovementType,
    pub movement_pattern: MovementPattern,
    /// the kind of the unit type's attack pattern
    pub attack_pattern: AttackPatternType,
    /// the terrain at the unit's position
    pub terrain: TerrainType,
    /// the tokens at the unit's position
    pub tokens: Vec<TokenType>,
    /// the heroes of the owner whose aura reaches the unit, each with its
    /// active power
    pub nearby_heroes: Vec<(HeroType, u8)>,
    /// every hero of the owner, each with its active power
    pub owned_heroes: Vec<(HeroType, u8)>,
    /// the unit's own hero: type, active power, charge and maximum charge
    pub hero: Option<(HeroType, u8, i32, i32)>,
    /// the owner's commander: type, active power and charge
    pub commander: (CommanderType, usize, u32),
    /// how much the game's fog hides
    pub fog: FogIntensity,
    /// whether the unit moved along a path of at least one step
    pub moved: bool,
    /// whether the unit is carried by another
    pub carried: bool,
}

pub struct UnitFactsView {
    pub typ: UnitType,
    pub owner: i8,
    pub current_owner: i8,
    pub flags: Seq<FlagKey>,
    pub tags: Seq<TagKey>,
    pub movement_type: MovementType,
    pub sub_movement_type: MovementType,
    pub movement_pattern: MovementPattern,
    pub attack_pattern: AttackPatternTypeView,
    pub terrain: TerrainType,
    pub tokens: Seq<TokenType>,
    pub nearby_heroes: Seq<(HeroType, u8)>,
    pub owned_heroes: Seq<(HeroType, u8)>,
    pub hero: Option<(HeroType, u8, i32, i32)>,
    pub commander: (CommanderType, usize, u32),
    pub fog: FogIntensity,
    pub moved: bool,
    pub carried: bool,
}

impl View for UnitFacts {
    type V = UnitFactsView;

    open spec fn view(&self) -> UnitFactsView {
        UnitFactsView {
            typ: self.typ,
            owner: self.owner,
            current_owner: self.current_owner,
            flags: self.flags@,
            tags: self.tags@,
            movement_type: self.movement_type,
            sub_movement_type: self.sub_movement_type,
            movement_pattern: self.movement_pattern,
            attack_pattern: self.attack_pattern@,
            terrain: self.terrain,
            tokens: self.tokens@,
            nearby_heroes: self.nearby_heroes@,
            owned_heroes: self.owned_heroes@,
            hero: self.hero,
            commander: self.commander,
            fog: self.fog,
            moved: self.moved,
            carried: self.carried,
        }
    }
}

/// Whether a unit's hero has a maximum charge a ratio can be taken of.
pub open spec fn hero_charge_known(u: UnitFactsView) -> bool {
    u.hero matches Some(h) ==> h.3 != 0
}

/// Whether one of `heroes` is one of `wanted`, with the power named there
/// active (any power where none is named).
pub open spec fn hero_wanted(wanted: Set<(HeroType, Option<u8>)>, heroes: Seq<(HeroType, u8)>) -> bool {
    exists|w: (HeroType, Option<u8>), h: (HeroType, u8)|
        #[trigger] wanted.contains(w) && #[trigger] heroes.contains(h) && w.0 == h.0 && (w.1 is None || w.1 == Some(h.1))
}

/// Whether one of `have` is in `wanted`.
pub open spec fn shares<T>(have: Seq<T>, wanted: Set<T>) -> bool {
    exists|k: T| #[trigger] have.contains(k) && wanted.contains(k)
}

/// `charge / max` is at least `f`.
pub open spec fn ratio_at_least(charge: i32, max: i32, f: Fraction) -> bool {
    if max > 0 {
        charge * f.spec_denom() >= f.spec_numer() * max
    } else {
        charge * f.spec_denom() <= f.spec_numer() * max
    }
}

/// The value of a filter that runs no script and looks at no other unit, for
/// the unit `u`, where `counter` is whether a counter-attack is under way.
pub open spec fn spec_leaf_check(f: UnitFilterView, u: UnitFactsView, counter: bool) -> bool {
    match f {
        UnitFilterView::Unit(s) => s.contains(u.typ),
        UnitFilterView::Flag(s) => shares(u.flags, s),
        UnitFilterView::Tag(s) => shares(u.tags, s),
        UnitFilterView::Movement(s) => s.contains(u.movement_type),
        UnitFilterView::SubMovement(s) => s.contains(u.sub_movement_type),
        UnitFilterView::Terrain(s) => s.contains(u.terrain),
        UnitFilterView::Token(s) => shares(u.tokens, s),
        UnitFilterView::MovementPattern(s) => s.contains(u.movement_pattern),
        UnitFilterView::Hero(s) => hero_wanted(s, u.nearby_heroes),
        UnitFilterView::HeroGlobal(s) => hero_wanted(s, u.owned_heroes),
        UnitFilterView::IsHero(s) => match u.hero {
            Some(h) => s.len() == 0 || hero_wanted(s, seq![(h.0, h.1)]),
            None => false,
        },
        UnitFilterView::HeroCharge(r) => match u.hero {
            Some(h) => ratio_at_least(h.2, h.3, r),
            None => false,
        },
        UnitFilterView::AttackPattern(s) => s.contains(u.attack_pattern),
        UnitFilterView::CommanderCharge(c) => u.commander.2 >= c,
        UnitFilterView::Fog(s) => s.contains(u.fog),
        UnitFilterView::Moved => u.moved,
        UnitFilterView::Unowned => u.owner < 0,
        UnitFilterView::Commander(c, p) => u.commander.0 == c && (p is None || p->0 as usize == u.commander.1),
        UnitFilterView::OwnerTurn => u.owner == u.current_owner,
        UnitFilterView::Carried => u.carried,
        UnitFilterView::Counter => counter,
        _ => false,
    }
}

/// Whether checking the filter `f` against unit `u` may give `b`, with `o`
/// the other unit involved (if any) and `counter` whether a counter-attack is
/// under way: each run of a script function may give any result that `run`
/// allows for it, a filter on the other unit fails where there is none, and a
/// `Not` holds where one of its filters fails.
pub open spec fn check_gives<C, F: Fn(usize, C, bool) -> bool>(f: UnitFilterView, u: UnitFactsView, o: Option<UnitFactsView>, counter: bool, ctx: C, swapped: bool, run: F, b: bool) -> bool
    decreases f,
{
    match f {
        UnitFilterView::Rhai(i) => call_ensures(run, (i, ctx, swapped), b),
        UnitFilterView::OtherUnit(fs) => match o {
            Some(ov) => check_all_gives(fs, ov, Some(u), counter, ctx, !swapped, run, b),
            None => !b,
        },
        UnitFilterView::Not(fs) => check_any_fails_gives(fs, u, o, counter, ctx, swapped, run, b),
        _ => b == spec_leaf_check(f, u, counter),
    }
}

/// Whether checking the filters `fs` one after another, up to the first that
/// fails, may tell that all hold (`b`) or that one fails (`!b`).
pub open spec fn check_all_gives<C, F: Fn(usize, C, bool) -> bool>(fs: Seq<UnitFilterView>, u: UnitFactsView, o: Option<UnitFactsView>, counter: bool, ctx: C, swapped: bool, run: F, b: bool) -> bool
    decreases fs,
{
    if fs.len() == 0 {
        b
    } else {
        ||| check_gives(fs[0], u, o, counter, ctx, swapped, run, true)
            && check_all_gives(fs.subrange(1, fs.len() as int), u, o, counter, ctx, swapped, run, b)
        ||| check_gives(fs[0], u, o, counter, ctx, swapped, run, false) && !b
    }
}

/// Whether checking the filters `fs` one after another, up to the first that
/// fails, may tell that one fails (`b`) or that all hold (`!b`).
pub open spec fn check_any_fails_gives<C, F: Fn(usize, C, bool) -> bool>(fs: Seq<UnitFilterView>, u: UnitFactsView, o: Option<UnitFactsView>, counter: bool, ctx: C, swapped: bool, run: F, b: bool) -> bool
    decreases fs,
{
    if fs.len() == 0 {
        !b
    } else {
        ||| check_gives(fs[0], u, o, counter, ctx, swapped, run, false) && b
        ||| check_gives(fs[0], u, o, counter, ctx, swapped, run, true)
            && check_any_fails_gives(fs.subrange(1, fs.len() as int), u, o, counter, ctx, swapped, run, b)
    }
}

/// Whether `run` gives one result for each script call.
pub open spec fn deterministic<C, F: Fn(usize, C, bool) -> bool>(run: F) -> bool {
    forall|i: usize, c: C, s: bool, a: bool, b: bool| call_ensures(run, (i, c, s), a) && call_ensures(run, (i, c, s), b) ==> a == b
}

/// Where every script call has one result, checking a filter has one result.
pub proof fn lemma_check_gives_one<C, F: Fn(usize, C, bool) -> bool>(f: UnitFilterView, u: UnitFactsView, o: Option<UnitFactsView>, counter: bool, ctx: C, swapped: bool, run: F, a: bool, b: bool)
    requires
        deterministic(run),
        check_gives(f, u, o, counter, ctx, swapped, run, a),
        check_gives(f, u, o, counter, ctx, swapped, run, b),
    ensures
        a == b,
    decreases f,
{
    match f {
        UnitFilterView::OtherUnit(fs) => {
            if let Some(ov) = o {
                lemma_check_all_gives_one(fs, ov, Some(u), counter, ctx, !swapped, run, a, b);
            }
        },
        UnitFilterView::Not(fs) => lemma_check_any_fails_gives_one(fs, u, o, counter, ctx, swapped, run, a, b),
        _ => {},
    }
}

/// Where every script call has one result, checking a list of filters for
/// all holding has one result.
pub proof fn lemma_check_all_gives_one<C, F: Fn(usize, C, bool) -> bool>(fs: Seq<UnitFilterView>, u: UnitFactsView, o: Option<UnitFactsView>, counter: bool, ctx: C, swapped: bool, run: F, a: bool, b: bool)
    requires
        deterministic(run),
        check_all_gives(fs, u, o, counter, ctx, swapped, run, a),
        check_all_gives(fs, u, o, counter, ctx, swapped, run, b),
    ensures
        a == b,
    decreases fs,
{
    if fs.len() > 0 {
        let rest = fs.subrange(1, fs.len() as int);
        if check_gives(fs[0], u, o, counter, ctx, swapped, run, true) && check_gives(fs[0], u, o, counter, ctx, swapped, run, false) {
            lemma_check_gives_one(fs[0], u, o, counter, ctx, swapped, run, true, false);
        }
        if check_all_gives(rest, u, o, counter, ctx, swapped, run, a) && check_all_gives(rest, u, o, counter, ctx, swapped, run, b) {
            lemma_check_all_gives_one(rest, u, o, counter, ctx, swapped, run, a, b);
        }
    }
}

/// Where every script call has one result, checking a list of filters for
/// one failing has one result.
pub proof fn lemma_check_any_fails_gives_one<C, F: Fn(usize, C, bool) -> bool>(fs: Seq<UnitFilterView>, u: UnitFactsView, o: Option<UnitFactsView>, counter: bool, ctx: C, swapped: bool, run: F, a: bool, b: bool)
    requires
        deterministic(run),
        check_any_fails_gives(fs, u, o, counter, ctx, swapped, run, a),
        check_any_fails_gives(fs, u, o, counter, ctx, swapped, run, b),
    ensures
        a == b,
    decreases fs,
{
    if fs.len() > 0 {
        let rest = fs.subrange(1, fs.len() as int);
        if check_gives(fs[0], u, o, counter, ctx, swapped, run, true) && check_gives(fs[0], u, o, counter, ctx, swapped, run, false) {
            lemma_check_gives_one(fs[0], u, o, counter, ctx, swapped, run, true, false);
        }
        if check_any_fails_gives(rest, u, o, counter, ctx, swapped, run, a) && check_any_fails_gives(rest, u, o, counter, ctx, swapped, run, b) {
            lemma_check_any_fails_gives_one(rest, u, o, counter, ctx, swapped, run, a, b);
        }
    }
}

fn any_shared<T: HeaderKey>(have: &Vec<T>, wanted: &Vec<T>) -> (r: bool)
    ensures
        r == shares(have@, wanted@.to_set()),
{
    let mut i: usize = 0;
    while i < have.len()
        invariant
            i <= have@.len(),
            forall|j: int| 0 <= j < i ==> !wanted@.contains(#[trigger] have@[j]),
        decreases have.len() - i,
    {
        if contains_key(wanted, &have[i]) {
            assert(have@.contains(have@[i as int]));
            assert(wanted@.to_set().contains(have@[i as int]));
            return true;
        }
        i += 1;
    }
    assert forall|k: T| #[trigger] have@.contains(k) implies !wanted@.to_set().contains(k) by {
        let j = choose|j: int| 0 <= j < have@.len() && have@[j] == k;
    }
    false
}

fn hero_in(wanted: &Vec<(HeroType, Option<u8>)>, heroes: &Vec<(HeroType, u8)>) -> (r: bool)
    ensures
        r == hero_wanted(wanted@.to_set(), heroes@),
{
    let mut i: usize = 0;
    while i < heroes.len()
        invariant
            i <= heroes@.len(),
            forall|w: (HeroType, Option<u8>), j: int| 0 <= j < i && #[trigger] wanted@.contains(w) ==>
                !(w.0 == (#[trigger] heroes@[j]).0 && (w.1 is None || w.1 == Some(heroes@[j].1))),
        decreases heroes.len() - i,
    {
        let h = heroes[i];
        let mut k: usize = 0;
        while k < wanted.len()
            invariant
                k <= wanted@.len(),
                i < heroes@.len(),
                h == heroes@[i as int],
                forall|j: int| 0 <= j < k ==> !(wanted@[j].0 == h.0 && (wanted@[j].1 is None || wanted@[j].1 == Some(h.1))),
            decreases wanted.len() - k,
        {
            let w = wanted[k];
            let matches = w.0.0 == h.0.0 && match w.1 {
                None => true,
                Some(p) => p == h.1,
            };
            if matches {
                assert(wanted@.to_set().contains(w));
                assert(heroes@.contains(h));
                return true;
            }
            k += 1;
        }
        assert forall|w: (HeroType, Option<u8>)| wanted@.contains(w) implies
            !(w.0 == heroes@[i as int].0 && (w.1 is None || w.1 == Some(heroes@[i as int].1))) by {
            let j = choose|j: int| 0 <= j < wanted@.len() && wanted@[j] == w;
        }
        i += 1;
    }
    assert forall|w: (HeroType, Option<u8>), h: (HeroType, u8)| wanted@.to_set().contains(w) && heroes@.contains(h)
        implies !(w.0 == h.0 && (w.1 is None || w.1 == Some(h.1))) by {
        let j = choose|j: int| 0 <= j < heroes@.len() && heroes@[j] == h;
        assert(wanted@.contains(w));
    }
    false
}

fn same_pattern_type(a: &AttackPatternType, b: &AttackPatternType) -> (r: bool)
    ensures
        r == (a@ == b@),
{
    match (a, b) {
        (AttackPatternType::NoAttack, AttackPatternType::NoAttack) => true,
        (AttackPatternType::Adjacent, AttackPatternType::Adjacent) => true,
        (AttackPatternType::Straight, AttackPatternType::Straight) => true,
        (AttackPatternType::TriangleDiagonal, AttackPatternType::TriangleDiagonal) => true,
        (AttackPatternType::TriangleStraight, AttackPatternType::TriangleStraight) => true,
        (AttackPatternType::Custom(x), AttackPatternType::Custom(y)) => {
            let xs = str_chars(x.as_str());
            let ys = str_chars(y.as_str());
            text_eq(xs.as_slice(), ys.as_slice())
        },
        _ => false,
    }
}

fn pattern_in(wanted: &Vec<AttackPatternType>, t: &AttackPatternType) -> (r: bool)
    ensures
        r == wanted@.map_values(|p: AttackPatternType| p@).to_set().contains(t@),
{
    let ghost vs = wanted@.map_values(|p: AttackPatternType| p@);
    let mut i: usize = 0;
    while i < wanted.len()
        invariant
            i <= wanted@.len(),
            vs == wanted@.map_values(|p: AttackPatternType| p@),
            forall|j: int| 0 <= j < i ==> vs[j] != t@,
        decreases wanted.len() - i,
    {
        if same_pattern_type(&wanted[i], t) {
            assert(vs[i as int] == t@);
            assert(vs.contains(t@));
            return true;
        }
        i += 1;
    }
    assert(!vs.contains(t@));
    false
}

proof fn lemma_filters_view_index(v: Seq<UnitFilter>)
    ensures
        filters_view(v).len() == v.len(),
        forall|i: int| 0 <= i < v.len() ==> filters_view(v)[i] == (#[trigger] v[i])@,
    decreases v.len(),
{
    if v.len() > 0 {
        lemma_filters_view_index(v.drop_last());
        assert forall|i: int| 0 <= i < v.len() implies filters_view(v)[i] == (#[trigger] v[i])@ by {
            if i < v.len() - 1 {
                assert(v.drop_last()[i] == v[i]);
            }
        }
    }
}

impl UnitFilter {
    /// Whether the filter holds of the unit `u`; `other` is the other unit
    /// involved, if any, and `counter` whether a counter-attack is under
    /// way. `run` runs a script function for the unit that `ctx` names,
    /// with the unit and the other unit exchanged where its last argument is
    /// true, and gives false where the script failed.
    #[verifier::loop_isolation(false)]
    #[verifier::spinoff_prover]
    #[verifier::rlimit(50)]
    pub fn check<C: Copy, F: Fn(usize, C, bool) -> bool>(&self, u: &UnitFacts, other: Option<&UnitFacts>, counter: bool, ctx: C, swapped: bool, run: &F) -> (b: bool)
        requires
            forall|i: usize, c: C, s: bool| #[trigger] run.requires((i, c, s)),
            hero_charge_known(u@),
            other matches Some(o) ==> hero_charge_known(o@),
        ensures
            check_gives(self@, u@, match other { Some(o) => Some(o@), None => None }, counter, ctx, swapped, *run, b),
        decreases self,
    {
        let ghost ov = match other { Some(o) => Some(o@), None => None::<UnitFactsView> };
        match self {
            UnitFilter::Rhai(i) => run(*i, ctx, swapped),
            UnitFilter::Unit(s) => contains_key(s, &u.typ),
            UnitFilter::Flag(s) => any_shared(&u.flags, s),
            UnitFilter::Tag(s) => any_shared(&u.tags, s),
            UnitFilter::Movement(s) => contains_key(s, &u.movement_type),
            UnitFilter::SubMovement(s) => contains_key(s, &u.sub_movement_type),
            UnitFilter::Terrain(s) => contains_key(s, &u.terrain),
            UnitFilter::Token(s) => any_shared(&u.tokens, s),
            UnitFilter::MovementPattern(s) => contains_key(s, &u.movement_pattern),
            UnitFilter::Hero(s) => hero_in(s, &u.nearby_heroes),
            UnitFilter::HeroGlobal(s) => hero_in(s, &u.owned_heroes),
            UnitFilter::IsHero(s) => match u.hero {
                Some(h) => {
                    if s.len() == 0 {
                        assert(s@.to_set() =~= Set::<(HeroType, Option<u8>)>::empty());
                        true
                    } else {
                        assert(s@.to_set().len() > 0) by {
                            assert(s@.to_set().contains(s@[0]));
                        }
                        let one = vec![(h.0, h.1)];
                        assert(one@ =~= seq![(h.0, h.1)]);
                        hero_in(s, &one)
                    }
                },
                None => false,
            },
            UnitFilter::HeroCharge(r) => match u.hero {
                Some(h) => {
                    let d = r.denom() as i64;
                    let n = r.numer() as i64;
                    let charge = h.2 as i64;
                    let max = h.3 as i64;
                    assert(-0x8000_0000 * 0x8000_0000 <= charge * d <= 0x8000_0000 * 0x8000_0000) by (nonlinear_arith)
                        requires -0x8000_0000 <= charge < 0x8000_0000, 0 < d < 0x8000_0000;
                    assert(-0x8000_0000 * 0x8000_0000 <= n * max <= 0x8000_0000 * 0x8000_0000) by (nonlinear_arith)
                        requires -0x8000_0000 <= n < 0x8000_0000, -0x8000_0000 <= max < 0x8000_0000;
                    if max > 0 {
                        charge * d >= n * max
                    } else {
                        charge * d <= n * max
                    }
                },
                None => false,
            },
            UnitFilter::AttackPattern(s) => pattern_in(s, &u.attack_pattern),
            UnitFilter::CommanderCharge(c) => u.commander.2 >= *c,
            UnitFilter::Fog(s) => contains_key(s, &u.fog),
            UnitFilter::Moved => u.moved,
            UnitFilter::Unowned => u.owner < 0,
            UnitFilter::Commander(c, p) => {
                u.commander.0.0 == c.0 && match p {
                    None => true,
                    Some(p) => *p as usize == u.commander.1,
                }
            },
            UnitFilter::OwnerTurn => u.owner == u.current_owner,
            UnitFilter::Carried => u.carried,
            UnitFilter::Counter => counter,
            UnitFilter::OtherUnit(fs) => match other {
                None => false,
                Some(o) => {
                    let ghost fv = filters_view(fs@);
                    proof { lemma_filters_view_index(fs@); }
                    let mut i: usize = 0;
                    assert(fv.subrange(0, fv.len() as int) =~= fv);
                    while i < fs.len()
                        invariant
                            i <= fs@.len(),
                            fv == filters_view(fs@),
                            fv.len() == fs@.len(),
                            forall|j: int| 0 <= j < fs@.len() ==> fv[j] == (#[trigger] fs@[j])@,
                            forall|i: usize, c: C, s: bool| #[trigger] run.requires((i, c, s)),
                            hero_charge_known(u@),
                            hero_charge_known(o@),
                            check_all_gives(fv.subrange(i as int, fv.len() as int), o@, Some(u@), counter, ctx, !swapped, *run, true)
                                ==> check_all_gives(fv, o@, Some(u@), counter, ctx, !swapped, *run, true),
                            check_all_gives(fv.subrange(i as int, fv.len() as int), o@, Some(u@), counter, ctx, !swapped, *run, false)
                                ==> check_all_gives(fv, o@, Some(u@), counter, ctx, !swapped, *run, false),
                        decreases fs.len() - i,
                    {
                        let ghost rest = fv.subrange(i as int, fv.len() as int);
                        assert(rest[0] == fv[i as int]);
                        assert(rest.subrange(1, rest.len() as int) =~= fv.subrange(i + 1, fv.len() as int));
                        proof {
                            assert(decreases_to!(*self => *fs));
                            assert(decreases_to!(*fs => fs@));
                            assert(decreases_to!(fs@ => fs@[i as int]));
                        }
                        let c = fs[i].check(o, Some(u), counter, ctx, !swapped, run);
                        if !c {
                            assert(check_all_gives(rest, o@, Some(u@), counter, ctx, !swapped, *run, false));
                            assert(self@ == UnitFilterView::OtherUnit(fv));
                            return false;
                        }
                        i += 1;
                    }
                    assert(fv.subrange(fv.len() as int, fv.len() as int) =~= Seq::<UnitFilterView>::empty());
                    assert(self@ == UnitFilterView::OtherUnit(fv));
                    true
                },
            },
            UnitFilter::Not(fs) => {
                let ghost fv = filters_view(fs@);
                proof { lemma_filters_view_index(fs@); }
                let mut i: usize = 0;
                assert(fv.subrange(0, fv.len() as int) =~= fv);
                while i < fs.len()
                    invariant
                        i <= fs@.len(),
                        fv == filters_view(fs@),
                        fv.len() == fs@.len(),
                        forall|j: int| 0 <= j < fs@.len() ==> fv[j] == (#[trigger] fs@[j])@,
                        forall|i: usize, c: C, s: bool| #[trigger] run.requires((i, c, s)),
                        hero_charge_known(u@),
                        other matches Some(o) ==> hero_charge_known(o@),
                        ov == match other { Some(o) => Some(o@), None => None::<UnitFactsView> },
                        check_any_fails_gives(fv.subrange(i as int, fv.len() as int), u@, ov, counter, ctx, swapped, *run, true)
                            ==> check_any_fails_gives(fv, u@, ov, counter, ctx, swapped, *run, true),
                        check_any_fails_gives(fv.subrange(i as int, fv.len() as int), u@, ov, counter, ctx, swapped, *run, false)
                            ==> check_any_fails_gives(fv, u@, ov, counter, ctx, swapped, *run, false),
                    decreases fs.len() - i,
                {
                    let ghost rest = fv.subrange(i as int, fv.len() as int);
                    assert(rest[0] == fv[i as int]);
                    assert(rest.subrange(1, rest.len() as int) =~= fv.subrange(i + 1, fv.len() as int));
                    proof {
                        assert(decreases_to!(*self => *fs));
                        assert(decreases_to!(*fs => fs@));
                        assert(decreases_to!(fs@ => fs@[i as int]));
                    }
                    let c = fs[i].check(u, other, counter, ctx, swapped, run);
                    if !c {
                        assert(check_any_fails_gives(rest, u@, ov, counter, ctx, swapped, *run, true));
                        assert(self@ == UnitFilterView::Not(fv));
                        return true;
                    }
                    i += 1;
                }
                assert(fv.subrange(fv.len() as int, fv.len() as int) =~= Seq::<UnitFilterView>::empty());
                assert(self@ == UnitFilterView::Not(fv));
                false
            },
        }
    }
}

/// What a terrain or token filter looks at of a terrain or token.
pub struct KindFacts<T> {
    pub typ: T,
    /// whether the configuration lets its type have an owner
    pub ownable: bool,
    pub owner: i8,
    /// the owner whose turn it is
    pub current_owner: i8,
    /// the flags it has
    pub flags: Vec<FlagKey>,
    /// the owner's commander: type and active power
    pub commander: (CommanderType, usize),
}

pub struct KindFactsView<T> {
    pub typ: T,
    pub ownable: bool,
    pub owner: i8,
    pub current_owner: i8,
    pub flags: Seq<FlagKey>,
    pub commander: (CommanderType, usize),
}

impl<T> View for KindFacts<T> {
    type V = KindFactsView<T>;

    open spec fn view(&self) -> KindFactsView<T> {
        KindFactsView {
            typ: self.typ,
            ownable: self.ownable,
            owner: self.owner,
            current_owner: self.current_owner,
            flags: self.flags@,
            commander: self.commander,
        }
    }
}

/// The value of a terrain or token filter that runs no script, for `k`.
pub open spec fn spec_kind_leaf_check<T>(f: KindFilterView<T>, k: KindFactsView<T>) -> bool {
    match f {
        KindFilterView::Commander(c, p) => k.commander.0 == c && (p is None || p->0 as usize == k.commander.1),
        KindFilterView::Type(s) => s.contains(k.typ),
        KindFilterView::Ownable => k.ownable,
        KindFilterView::Unowned => k.owner < 0,
        KindFilterView::OwnerTurn => k.owner == k.current_owner,
        KindFilterView::Flag(s) => shares(k.flags, s),
        _ => false,
    }
}

/// Whether checking a terrain or token filter against `k` may give `b`: each
/// run of a script function may give any result that `run` allows for it.
pub open spec fn kind_check_gives<T, C, F: Fn(usize, C) -> bool>(f: KindFilterView<T>, k: KindFactsView<T>, ctx: C, run: F, b: bool) -> bool
    decreases f,
{
    match f {
        KindFilterView::Rhai(i) => call_ensures(run, (i, ctx), b),
        KindFilterView::Not(fs) => kind_any_fails_gives(fs, k, ctx, run, b),
        _ => b == spec_kind_leaf_check(f, k),
    }
}

/// Whether checking the filters `fs` one after another, up to the first that
/// fails, may tell that one fails (`b`) or that all hold (`!b`).
pub open spec fn kind_any_fails_gives<T, C, F: Fn(usize, C) -> bool>(fs: Seq<KindFilterView<T>>, k: KindFactsView<T>, ctx: C, run: F, b: bool) -> bool
    decreases fs,
{
    if fs.len() == 0 {
        !b
    } else {
        ||| kind_check_gives(fs[0], k, ctx, run, false) && b
        ||| kind_check_gives(fs[0], k, ctx, run, true) && kind_any_fails_gives(fs.subrange(1, fs.len() as int), k, ctx, run, b)
    }
}

/// Whether checking the filters `fs` one after another, up to the first that
/// fails, may tell that all hold (`b`) or that one fails (`!b`).
pub open spec fn kind_all_gives<T, C, F: Fn(usize, C) -> bool>(fs: Seq<KindFilterView<T>>, k: KindFactsView<T>, ctx: C, run: F, b: bool) -> bool
    decreases fs.len(),
{
    if fs.len() == 0 {
        b
    } else {
        ||| kind_check_gives(fs[0], k, ctx, run, true) && kind_all_gives(fs.subrange(1, fs.len() as int), k, ctx, run, b)
        ||| kind_check_gives(fs[0], k, ctx, run, false) && !b
    }
}

/// Whether `run` gives one result for each script call.
pub open spec fn kind_deterministic<C, F: Fn(usize, C) -> bool>(run: F) -> bool {
    forall|i: usize, c: C, a: bool, b: bool| call_ensures(run, (i, c), a) && call_ensures(run, (i, c), b) ==> a == b
}

/// Where every script call has one result, checking a terrain or token
/// filter has one result.
pub proof fn lemma_kind_check_gives_one<T, C, F: Fn(usize, C) -> bool>(f: KindFilterView<T>, k: KindFactsView<T>, ctx: C, run: F, a: bool, b: bool)
    requires
        kind_deterministic(run),
        kind_check_gives(f, k, ctx, run, a),
        kind_check_gives(f, k, ctx, run, b),
    ensures
        a == b,
    decreases f,
{
    if let KindFilterView::Not(fs) = f {
        lemma_kind_any_fails_gives_one(fs, k, ctx, run, a, b);
    }
}

/// Where every script call has one result, checking a list of terrain or
/// token filters for one failing has one result.
pub proof fn lemma_kind_any_fails_gives_one<T, C, F: Fn(usize, C) -> bool>(fs: Seq<KindFilterView<T>>, k: KindFactsView<T>, ctx: C, run: F, a: bool, b: bool)
    requires
        kind_deterministic(run),
        kind_any_fails_gives(fs, k, ctx, run, a),
        kind_any_fails_gives(fs, k, ctx, run, b),
    ensures
        a == b,
    decreases fs,
{
    if fs.len() > 0 {
        let rest = fs.subrange(1, fs.len() as int);
        if kind_check_gives(fs[0], k, ctx, run, true) && kind_check_gives(fs[0], k, ctx, run, false) {
            lemma_kind_check_gives_one(fs[0], k, ctx, run, true, false);
        }
        if kind_any_fails_gives(rest, k, ctx, run, a) && kind_any_fails_gives(rest, k, ctx, run, b) {
            lemma_kind_any_fails_gives_one(rest, k, ctx, run, a, b);
        }
    }
}

proof fn lemma_kind_filters_view_index<T>(v: Seq<KindFilter<T>>)
    ensures
        kind_filters_view(v).len() == v.len(),
        forall|i: int| 0 <= i < v.len() ==> kind_filters_view(v)[i] == (#[trigger] v[i])@,
    decreases v.len(),
{
    if v.len() > 0 {
        lemma_kind_filters_view_index(v.drop_last());
        assert forall|i: int| 0 <= i < v.len() implies kind_filters_view(v)[i] == (#[trigger] v[i])@ by {
            if i < v.len() - 1 {
                assert(v.drop_last()[i] == v[i]);
            }
        }
    }
}

impl<T: HeaderKey> KindFilter<T> {
    /// Whether the filter holds of the terrain or token `k`; `run` runs a
    /// script function for the terrain or token that `ctx` names and gives
    /// false where the script failed.
    #[verifier::loop_isolation(false)]
    pub fn check<C: Copy, F: Fn(usize, C) -> bool>(&self, k: &KindFacts<T>, ctx: C, run: &F) -> (b: bool)
        requires
            forall|i: usize, c: C| #[trigger] run.requires((i, c)),
        ensures
            kind_check_gives(self@, k@, ctx, *run, b),
        decreases self,
    {
        match self {
            KindFilter::Rhai(i) => run(*i, ctx),
            KindFilter::Commander(c, p) => {
                k.commander.0.0 == c.0 && match p {
                    None => true,
                    Some(p) => *p as usize == k.commander.1,
                }
            },
            KindFilter::Type(s) => contains_key(s, &k.typ),
            KindFilter::Ownable => k.ownable,
            KindFilter::Unowned => k.owner < 0,
            KindFilter::OwnerTurn => k.owner == k.current_owner,
            KindFilter::Flag(s) => any_shared(&k.flags, s),
            KindFilter::Not(fs) => {
                let ghost fv = kind_filters_view(fs@);
                proof { lemma_kind_filters_view_index(fs@); }
                let mut i: usize = 0;
                assert(fv.subrange(0, fv.len() as int) =~= fv);
                while i < fs.len()
                    invariant
                        i <= fs@.len(),
                        fv == kind_filters_view(fs@),
                        fv.len() == fs@.len(),
                        forall|j: int| 0 <= j < fs@.len() ==> fv[j] == (#[trigger] fs@[j])@,
                        kind_any_fails_gives(fv.subrange(i as int, fv.len() as int), k@, ctx, *run, true)
                            ==> kind_any_fails_gives(fv, k@, ctx, *run, true),
                        kind_any_fails_gives(fv.subrange(i as int, fv.len() as int), k@, ctx, *run, false)
                            ==> kind_any_fails_gives(fv, k@, ctx, *run, false),
                    decreases fs.len() - i,
                {
                    let ghost rest = fv.subrange(i as int, fv.len() as int);
                    assert(rest[0] == fv[i as int]);
                    assert(rest.subrange(1, rest.len() as int) =~= fv.subrange(i + 1, fv.len() as int));
                    proof {
                        assert(decreases_to!(*self => *fs));
                        assert(decreases_to!(*fs => fs@));
                        assert(decreases_to!(fs@ => fs@[i as int]));
                    }
                    let c = fs[i].check(k, ctx, run);
                    if !c {
                        assert(kind_any_fails_gives(rest, k@, ctx, *run, true));
                        assert(self@ == KindFilterView::Not(fv));
                        return true;
                    }
                    i += 1;
                }
                assert(fv.subrange(fv.len() as int, fv.len() as int) =~= Seq::<KindFilterView<T>>::empty());
                assert(self@ == KindFilterView::Not(fv));
                false
            },
        }
    }
}

fn kind_all<T: HeaderKey, C: Copy, F: Fn(usize, C) -> bool>(fs: &Vec<KindFilter<T>>, k: &KindFacts<T>, ctx: C, run: &F) -> (b: bool)
    requires
        forall|i: usize, c: C| #[trigger] run.requires((i, c)),
    ensures
        kind_all_gives(kind_filters_view(fs@), k@, ctx, *run, b),
{
    let ghost fv = kind_filters_view(fs@);
    proof { lemma_kind_filters_view_index(fs@); }
    let mut i: usize = 0;
    assert(fv.subrange(0, fv.len() as int) =~= fv);
    while i < fs.len()
        invariant
            i <= fs@.len(),
            fv == kind_filters_view(fs@),
            fv.len() == fs@.len(),
            forall|j: int| 0 <= j < fs@.len() ==> fv[j] == (#[trigger] fs@[j])@,
            forall|i: usize, c: C| #[trigger] run.requires((i, c)),
            kind_all_gives(fv.subrange(i as int, fv.len() as int), k@, ctx, *run, true) ==> kind_all_gives(fv, k@, ctx, *run, true),
            kind_all_gives(fv.subrange(i as int, fv.len() as int), k@, ctx, *run, false) ==> kind_all_gives(fv, k@, ctx, *run, false),
        decreases fs.len() - i,
    {
        let ghost rest = fv.subrange(i as int, fv.len() as int);
        assert(rest[0] == fv[i as int]);
        assert(rest.subrange(1, rest.len() as int) =~= fv.subrange(i + 1, fv.len() as int));
        let c = fs[i].check(k, ctx, run);
        if !c {
            assert(kind_all_gives(rest, k@, ctx, *run, false));
            return false;
        }
        i += 1;
    }
    assert(fv.subrange(fv.len() as int, fv.len() as int) =~= Seq::<KindFilterView<T>>::empty());
    true
}

fn unit_all<C: Copy, F: Fn(usize, C, bool) -> bool>(fs: &Vec<UnitFilter>, u: &UnitFacts, ctx: C, run: &F) -> (b: bool)
    requires
        forall|i: usize, c: C, s: bool| #[trigger] run.requires((i, c, s)),
        hero_charge_known(u@),
    ensures
        check_all_gives(filters_view(fs@), u@, None, false, ctx, false, *run, b),
{
    let ghost fv = filters_view(fs@);
    proof { lemma_filters_view_index(fs@); }
    let mut i: usize = 0;
    assert(fv.subrange(0, fv.len() as int) =~= fv);
    while i < fs.len()
        invariant
            i <= fs@.len(),
            fv == filters_view(fs@),
            fv.len() == fs@.len(),
            forall|j: int| 0 <= j < fs@.len() ==> fv[j] == (#[trigger] fs@[j])@,
            forall|i: usize, c: C, s: bool| #[trigger] run.requires((i, c, s)),
            hero_charge_known(u@),
            check_all_gives(fv.subrange(i as int, fv.len() as int), u@, None, false, ctx, false, *run, true)
                ==> check_all_gives(fv, u@, None, false, ctx, false, *run, true),
            check_all_gives(fv.subrange(i as int, fv.len() as int), u@, None, false, ctx, false, *run, false)
                ==> check_all_gives(fv, u@, None, false, ctx, false, *run, false),
        decreases fs.len() - i,
    {
        let ghost rest = fv.subrange(i as int, fv.len() as int);
        assert(rest[0] == fv[i as int]);
        assert(rest.subrange(1, rest.len() as int) =~= fv.subrange(i + 1, fv.len() as int));
        let c = fs[i].check(u, None, false, ctx, false, run);
        if !c {
            assert(check_all_gives(rest, u@, None, false, ctx, false, *run, false));
            return false;
        }
        i += 1;
    }
    assert(fv.subrange(fv.len() as int, fv.len() as int) =~= Seq::<UnitFilterView>::empty());
    true
}

/// The thing on a field that a global event applies to: the terrain, the
/// token at this position among the field's tokens, or the unit (`None`)
/// or the unit it carries at this position.
#[derive(Debug, Clone, Copy, PartialEq, Eq, Structural)]
pub enum LocalTarget {
    Terrain,
    Token(usize),
    Unit(Option<usize>),
}

/// What a global event looks at on one field.
pub struct LocalFacts {
    pub terrain: KindFacts<TerrainType>,
    pub tokens: Vec<KindFacts<TokenType>>,
    /// the unit on the field, if any, and the units it carries
    pub unit: Option<(UnitFacts, Vec<UnitFacts>)>,
}

/// Whether every unit of a field has a hero charge a ratio can be taken of.
pub open spec fn local_heroes_known(f: LocalFacts) -> bool {
    f.unit matches Some(p) ==> hero_charge_known(p.0@) && forall|i: int| 0 <= i < p.1@.len() ==> hero_charge_known(#[trigger] p.1@[i]@)
}

/// Whether testing the first `k` tokens, one after another, may give the
/// targets `r`: those for which all filters hold, in order.
pub open spec fn token_targets_give<F: Fn(usize, LocalTarget) -> bool>(fs: Seq<KindFilterView<TokenType>>, tokens: Seq<KindFacts<TokenType>>, run: F, k: nat, r: Seq<LocalTarget>) -> bool
    decreases k,
{
    if k == 0 {
        r == Seq::<LocalTarget>::empty()
    } else {
        let here = LocalTarget::Token((k - 1) as usize);
        ||| kind_all_gives(fs, tokens[k - 1]@, here, run, true) && r.len() > 0 && r.last() == here
            && token_targets_give(fs, tokens, run, (k - 1) as nat, r.drop_last())
        ||| kind_all_gives(fs, tokens[k - 1]@, here, run, false) && token_targets_give(fs, tokens, run, (k - 1) as nat, r)
    }
}

/// Whether testing the first `k` carried units, one after another, may give
/// the targets `r`: those for which all filters hold, in order.
pub open spec fn carried_targets_give<G: Fn(usize, LocalTarget, bool) -> bool>(fs: Seq<UnitFilterView>, carried: Seq<UnitFacts>, run: G, k: nat, r: Seq<LocalTarget>) -> bool
    decreases k,
{
    if k == 0 {
        r == Seq::<LocalTarget>::empty()
    } else {
        let here = LocalTarget::Unit(Some((k - 1) as usize));
        ||| check_all_gives(fs, carried[k - 1]@, None, false, here, false, run, true) && r.len() > 0 && r.last() == here
            && carried_targets_give(fs, carried, run, (k - 1) as nat, r.drop_last())
        ||| check_all_gives(fs, carried[k - 1]@, None, false, here, false, run, false) && carried_targets_give(fs, carried, run, (k - 1) as nat, r)
    }
}

/// Whether testing a field for a global event may give the targets `r`: the
/// terrain, or the tokens, or the unit and then the units it carries, for
/// which every filter holds, in order.
pub open spec fn test_local_gives<F: Fn(usize, LocalTarget) -> bool, G: Fn(usize, LocalTarget, bool) -> bool>(
    e: GlobalEventTypeView,
    f: LocalFacts,
    run_kind: F,
    run_unit: G,
    r: Seq<LocalTarget>,
) -> bool {
    match e {
        GlobalEventTypeView::Terrain(fs) => {
            ||| kind_all_gives(fs, f.terrain@, LocalTarget::Terrain, run_kind, true) && r == seq![LocalTarget::Terrain]
            ||| kind_all_gives(fs, f.terrain@, LocalTarget::Terrain, run_kind, false) && r == Seq::<LocalTarget>::empty()
        },
        GlobalEventTypeView::Token(fs) => token_targets_give(fs, f.tokens@, run_kind, f.tokens@.len(), r),
        GlobalEventTypeView::Unit(fs) => match f.unit {
            None => r == Seq::<LocalTarget>::empty(),
            Some((u, carried)) => {
                ||| check_all_gives(fs, u@, None, false, LocalTarget::Unit(None), false, run_unit, true)
                    && r.len() > 0 && r[0] == LocalTarget::Unit(None)
                    && carried_targets_give(fs, carried@, run_unit, carried@.len(), r.subrange(1, r.len() as int))
                ||| check_all_gives(fs, u@, None, false, LocalTarget::Unit(None), false, run_unit, false)
                    && carried_targets_give(fs, carried@, run_unit, carried@.len(), r)
            },
        },
    }
}

/// Where every script call has one result, checking a list of terrain or
/// token filters for all holding has one result.
pub proof fn lemma_kind_all_gives_one<T, C, F: Fn(usize, C) -> bool>(fs: Seq<KindFilterView<T>>, k: KindFactsView<T>, ctx: C, run: F, a: bool, b: bool)
    requires
        kind_deterministic(run),
        kind_all_gives(fs, k, ctx, run, a),
        kind_all_gives(fs, k, ctx, run, b),
    ensures
        a == b,
    decreases fs.len(),
{
    if fs.len() > 0 {
        let rest = fs.subrange(1, fs.len() as int);
        if kind_check_gives(fs[0], k, ctx, run, true) && kind_check_gives(fs[0], k, ctx, run, false) {
            lemma_kind_check_gives_one(fs[0], k, ctx, run, true, false);
        }
        if kind_all_gives(rest, k, ctx, run, a) && kind_all_gives(rest, k, ctx, run, b) {
            lemma_kind_all_gives_one(rest, k, ctx, run, a, b);
        }
    }
}

proof fn lemma_token_targets_one<F: Fn(usize, LocalTarget) -> bool>(fs: Seq<KindFilterView<TokenType>>, tokens: Seq<KindFacts<TokenType>>, run: F, k: nat, r1: Seq<LocalTarget>, r2: Seq<LocalTarget>)
    requires
        kind_deterministic(run),
        token_targets_give(fs, tokens, run, k, r1),
        token_targets_give(fs, tokens, run, k, r2),
    ensures
        r1 == r2,
    decreases k,
{
    if k > 0 {
        let here = LocalTarget::Token((k - 1) as usize);
        let t = tokens[k - 1]@;
        if kind_all_gives(fs, t, here, run, true) && kind_all_gives(fs, t, here, run, false) {
            lemma_kind_all_gives_one(fs, t, here, run, true, false);
        }
        if kind_all_gives(fs, t, here, run, true) {
            lemma_token_targets_one(fs, tokens, run, (k - 1) as nat, r1.drop_last(), r2.drop_last());
            assert(r1 =~= r1.drop_last().push(r1.last()));
            assert(r2 =~= r2.drop_last().push(r2.last()));
        } else {
            lemma_token_targets_one(fs, tokens, run, (k - 1) as nat, r1, r2);
        }
    }
}

proof fn lemma_carried_targets_one<G: Fn(usize, LocalTarget, bool) -> bool>(fs: Seq<UnitFilterView>, carried: Seq<UnitFacts>, run: G, k: nat, r1: Seq<LocalTarget>, r2: Seq<LocalTarget>)
    requires
        deterministic(run),
        carried_targets_give(fs, carried, run, k, r1),
        carried_targets_give(fs, carried, run, k, r2),
    ensures
        r1 == r2,
    decreases k,
{
    if k > 0 {
        let here = LocalTarget::Unit(Some((k - 1) as usize));
        let u = carried[k - 1]@;
        if check_all_gives(fs, u, None, false, here, false, run, true) && check_all_gives(fs, u, None, false, here, false, run, false) {
            lemma_check_all_gives_one(fs, u, None, false, here, false, run, true, false);
        }
        if check_all_gives(fs, u, None, false, here, false, run, true) {
            lemma_carried_targets_one(fs, carried, run, (k - 1) as nat, r1.drop_last(), r2.drop_last());
            assert(r1 =~= r1.drop_last().push(r1.last()));
            assert(r2 =~= r2.drop_last().push(r2.last()));
        } else {
            lemma_carried_targets_one(fs, carried, run, (k - 1) as nat, r1, r2);
        }
    }
}

/// Where every script call has one result, testing a field for a global
/// event has one result.
pub proof fn lemma_test_local_gives_one<F: Fn(usize, LocalTarget) -> bool, G: Fn(usize, LocalTarget, bool) -> bool>(
    e: GlobalEventTypeView,
    f: LocalFacts,
    run_kind: F,
    run_unit: G,
    r1: Seq<LocalTarget>,
    r2: Seq<LocalTarget>,
)
    requires
        kind_deterministic(run_kind),
        deterministic(run_unit),
        test_local_gives(e, f, run_kind, run_unit, r1),
        test_local_gives(e, f, run_kind, run_unit, r2),
    ensures
        r1 == r2,
{
    match e {
        GlobalEventTypeView::Terrain(fs) => {
            let t = f.terrain@;
            if kind_all_gives(fs, t, LocalTarget::Terrain, run_kind, true) && kind_all_gives(fs, t, LocalTarget::Terrain, run_kind, false) {
                lemma_kind_all_gives_one(fs, t, LocalTarget::Terrain, run_kind, true, false);
            }
        },
        GlobalEventTypeView::Token(fs) => lemma_token_targets_one(fs, f.tokens@, run_kind, f.tokens@.len(), r1, r2),
        GlobalEventTypeView::Unit(fs) => {
            if let Some((u, carried)) = f.unit {
                let head = LocalTarget::Unit(None);
                if check_all_gives(fs, u@, None, false, head, false, run_unit, true) && check_all_gives(fs, u@, None, false, head, false, run_unit, false) {
                    lemma_check_all_gives_one(fs, u@, None, false, head, false, run_unit, true, false);
                }
                if check_all_gives(fs, u@, None, false, head, false, run_unit, true) {
                    lemma_carried_targets_one(fs, carried@, run_unit, carried@.len(), r1.subrange(1, r1.len() as int), r2.subrange(1, r2.len() as int));
                    assert(r1 =~= seq![r1[0]] + r1.subrange(1, r1.len() as int));
                    assert(r2 =~= seq![r2[0]] + r2.subrange(1, r2.len() as int));
                } else {
                    lemma_carried_targets_one(fs, carried@, run_unit, carried@.len(), r1, r2);
                }
            }
        },
    }
}

impl GlobalEventType {
    /// The things on a field that the event applies to; `run_kind` and
    /// `run_unit` run a script function for the thing named and give false
    /// where the script failed.
    pub fn test_local<F: Fn(usize, LocalTarget) -> bool, G: Fn(usize, LocalTarget, bool) -> bool>(
        &self,
        facts: &LocalFacts,
        run_kind: &F,
        run_unit: &G,
    ) -> (r: Vec<LocalTarget>)
        requires
            forall|i: usize, c: LocalTarget| #[trigger] run_kind.requires((i, c)),
            forall|i: usize, c: LocalTarget, s: bool| #[trigger] run_unit.requires((i, c, s)),
            local_heroes_known(*facts),
        ensures
            test_local_gives(self@, *facts, *run_kind, *run_unit, r@),
    {
        match self {
            GlobalEventType::Terrain(fs) => {
                let mut result: Vec<LocalTarget> = Vec::new();
                if kind_all(fs, &facts.terrain, LocalTarget::Terrain, run_kind) {
                    result.push(LocalTarget::Terrain);
                }
                assert(result@ =~= seq![LocalTarget::Terrain] || result@ =~= Seq::<LocalTarget>::empty());
                result
            },
            GlobalEventType::Token(fs) => {
                let mut result: Vec<LocalTarget> = Vec::new();
                let ghost fv = kind_filters_view(fs@);
                let mut j: usize = 0;
                while j < facts.tokens.len()
                    invariant
                        j <= facts.tokens@.len(),
                        fv == kind_filters_view(fs@),
                        forall|i: usize, c: LocalTarget| #[trigger] run_kind.requires((i, c)),
                        token_targets_give(fv, facts.tokens@, *run_kind, j as nat, result@),
                    decreases facts.tokens.len() - j,
                {
                    let ghost before = result@;
                    if kind_all(fs, &facts.tokens[j], LocalTarget::Token(j), run_kind) {
                        result.push(LocalTarget::Token(j));
                        assert(result@.drop_last() =~= before);
                    }
                    j += 1;
                }
                result
            },
            GlobalEventType::Unit(fs) => {
                match &facts.unit {
                    None => Vec::new(),
                    Some((u, carried)) => {
                        let ghost fv = filters_view(fs@);
                        let head = unit_all(fs, u, LocalTarget::Unit(None), run_unit);
                        let mut tail: Vec<LocalTarget> = Vec::new();
                        let mut j: usize = 0;
                        while j < carried.len()
                            invariant
                                j <= carried@.len(),
                                fv == filters_view(fs@),
                                forall|i: usize, c: LocalTarget, s: bool| #[trigger] run_unit.requires((i, c, s)),
                                forall|i: int| 0 <= i < carried@.len() ==> hero_charge_known(#[trigger] carried@[i]@),
                                carried_targets_give(fv, carried@, *run_unit, j as nat, tail@),
                            decreases carried.len() - j,
                        {
                            let ghost before = tail@;
                            if unit_all(fs, &carried[j], LocalTarget::Unit(Some(j)), run_unit) {
                                tail.push(LocalTarget::Unit(Some(j)));
                                assert(tail@.drop_last() =~= before);
                            }
                            j += 1;
                        }
                        if head {
                            let mut result: Vec<LocalTarget> = vec![LocalTarget::Unit(None)];
                            let ghost t = tail@;
                            result.append(&mut tail);
                            assert(result@.subrange(1, result@.len() as int) =~= t);
                            result
                        } else {
                            tail
                        }
                    },
                }
            },
        }
    }
}

} // verus!
