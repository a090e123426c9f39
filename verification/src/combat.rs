use vstd::prelude::*;

use crate::direction::{rotate_times, index_add, Direction, Distortion};
use crate::movement::TBallast;
use crate::player::ClientPerspective;
use crate::point::{OrientedPoint, Point};
use crate::config::file_loader::{spec_register, spec_rhai_step, FileLoader, LoaderNames};
use crate::config::listing::{framed_text, is_word, listed_from_conf, position_of, qualified, qualified_text, spec_listed_from_conf, Listable};
use crate::config::names::spec_lookup;
use crate::config::parse::{string_base, FromConfig};
use crate::config::text::{spec_trim, suffix, trim};
use crate::config::{ConfigError, ConfigParseError};

verus! {

/// A unit as an attack sees it: the unit, where it stands, its slot if it is
/// transported, the ballast of its path so far and the transporter it left.
pub struct UnitData<'a, U, D> {
    pub unit: &'a U,
    pub pos: Point,
    pub unload_index: Option<usize>,
    pub ballast: &'a [TBallast<D>],
    pub original_transporter: Option<(&'a U, Point)>,
}

/// A unit id remembered during an attack, with the distortion the unit had
/// when it was remembered.
#[derive(Debug, Clone, Copy, PartialEq, Eq)]
pub struct UnitId<D>(pub usize, pub Distortion<D>);

/// Whether an attack is a counter-attack, and whether it may be countered.
/// `U` is the unit type of the board.
#[derive(Debug, Clone, PartialEq, Eq)]
pub enum AttackCounterState<U, D> {
    /// a counter-attack against the unit `unit` that stood at `pos`
    RealCounter { id: usize, unit: U, pos: Point, ballast: Vec<TBallast<D>>, original_transporter: Option<(U, Point)> },
    /// an attack triggered by a script that counts as a counter-attack
    FakeCounter,
    AllowCounter,
    NoCounter,
}

impl<U, D> AttackCounterState<U, D> {
    pub fn allows_counter(&self) -> (b: bool)
        ensures
            b == (*self is AllowCounter),
    {
        match self {
            AttackCounterState::AllowCounter => true,
            _ => false,
        }
    }

    pub fn is_counter(&self) -> (b: bool)
        ensures
            b == (*self is RealCounter || *self is FakeCounter),
    {
        match self {
            AttackCounterState::RealCounter { .. } | AttackCounterState::FakeCounter => true,
            _ => false,
        }
    }

    /// The unit that is being countered, as it stood when it attacked.
    pub fn attacker(&self) -> (r: Option<UnitData<'_, U, D>>)
        ensures
            match *self {
                AttackCounterState::RealCounter { unit, pos, ballast, original_transporter, .. } => r matches Some(data) && {
                    &&& *data.unit == unit
                    &&& data.pos == pos
                    &&& data.unload_index is None
                    &&& data.ballast@ == ballast@
                    &&& match original_transporter {
                        Some((t, p)) => data.original_transporter matches Some((t2, p2)) && *t2 == t && p2 == p,
                        None => data.original_transporter is None,
                    }
                },
                _ => r is None,
            },
    {
        match self {
            AttackCounterState::RealCounter { unit, pos, ballast, original_transporter, .. } => Some(
                UnitData {
                    unit,
                    pos: *pos,
                    unload_index: None,
                    ballast: ballast.as_slice(),
                    original_transporter: match original_transporter {
                        Some((u, p)) => Some((u, *p)),
                        None => None,
                    },
                },
            ),
            _ => None,
        }
    }
}

/// Where an attacker is: a unit that only exists for this attack, or a
/// remembered unit on the board.
#[derive(Debug, Clone)]
pub enum AttackerPosition<U, D> {
    Phantom(Point, U),
    Real(UnitId<D>),
}

/// What an attacker aims at.
#[derive(Debug, Clone, Copy)]
pub struct AttackTargeting<D> {
    pub target: OrientedPoint<D>,
    pub direction_hint: D,
    pub unit_id: Option<usize>,
}

/// How an attack finds its target again after the attacker moved.
#[derive(Debug, Clone, Copy, PartialEq, Eq, Structural)]
pub enum AttackTargetingFocus {
    /// re-targets to attack the unit found by this id
    Unit,
    /// tries to hit the selected position, even if no unit is there anymore
    Position,
    /// tries to attack in the same direction, even if the attacker was displaced
    Relative,
}

impl Listable for AttackTargetingFocus {
    open spec fn spec_list() -> Seq<Self> {
        seq![Self::Unit, Self::Position, Self::Relative]
    }

    open spec fn spec_name(self) -> Seq<char> {
        match self {
            Self::Unit => "Unit"@,
            Self::Position => "Position"@,
            Self::Relative => "Relative"@,
        }
    }

    open spec fn spec_kind_name() -> Seq<char> {
        "AttackTargetingFocus"@
    }

    fn list() -> (r: Vec<Self>) {
        vec![Self::Unit, Self::Position, Self::Relative]
    }

    fn name(&self) -> (r: &'static str) {
        match self {
            Self::Unit => "Unit",
            Self::Position => "Position",
            Self::Relative => "Relative",
        }
    }

    fn kind_name() -> (r: &'static str) {
        "AttackTargetingFocus"
    }
}

impl FromConfig for AttackTargetingFocus {
    open spec fn spec_from_conf(s: Seq<char>, names: LoaderNames) -> Result<(Self, Seq<char>), ConfigError> {
        spec_listed_from_conf::<Self>(s)
    }

    fn from_conf<'a>(s: &'a [char], loader: &FileLoader) -> (r: Result<(Self, &'a [char]), ConfigParseError>) {
        listed_from_conf(s)
    }
}

/// Which units an attack may target.
#[derive(Debug, Clone, Copy, PartialEq, Eq, Structural)]
pub enum ValidAttackTargets {
    Enemy,
    Friendly,
    All,
    /// decided by the script function with this index
    Rhai(usize),
}

impl ValidAttackTargets {
    /// Whether a unit of team `unit_team` may target a unit of team
    /// `other_team`. For `Rhai`, `script_result` is what the script function
    /// returned (false if it failed).
    pub fn check(&self, unit_team: ClientPerspective, other_team: ClientPerspective, script_result: bool) -> (b: bool)
        ensures
            b == match *self {
                ValidAttackTargets::Enemy => unit_team != other_team,
                ValidAttackTargets::Friendly => unit_team == other_team,
                ValidAttackTargets::All => true,
                ValidAttackTargets::Rhai(_) => script_result,
            },
    {
        match self {
            ValidAttackTargets::Enemy => unit_team != other_team,
            ValidAttackTargets::Friendly => unit_team == other_team,
            ValidAttackTargets::All => true,
            ValidAttackTargets::Rhai(_) => script_result,
        }
    }
}

/// Value of a count that may be given from the end: a negative `value`
/// counts back from `count` and stops at 0.
pub open spec fn spec_count_from_both_ends(value: i32, count: int) -> int {
    if value >= 0 {
        value as int
    } else if count + value > 0 {
        count + value
    } else {
        0
    }
}

pub fn count_from_both_ends(value: i32, count: usize) -> (r: i32)
    requires
        count <= i32::MAX,
    ensures
        r == spec_count_from_both_ends(value, count as int),
{
    if value >= 0 {
        value
    } else {
        let v = count as i32 + value;
        if v > 0 {
            v
        } else {
            0
        }
    }
}

/// How a displacing attack turns the direction in which its target is pushed.
#[derive(Debug, Clone, Copy, PartialEq, Eq, Structural)]
pub enum DisplaceDirectionModifier {
    Keep,
    Reverse,
    /// to the left and closer to the attacker on hex boards; like BluntLeft on square boards
    SharpLeft,
    /// to the left and away from the attacker on hex boards; like SharpLeft on square boards
    BluntLeft,
    SharpRight,
    BluntRight,
}

/// The direction index a modifier gives a push that points along
/// `direction` on a field seen mirrored or not.
pub open spec fn displaced_direction<D: Direction>(m: DisplaceDirectionModifier, mirrored: bool, direction: nat) -> nat {
    let n = D::spec_count();
    // turning "left" is counter-clockwise unless the field is seen mirrored
    let left: int = if mirrored { -1 } else { 1 };
    match m {
        DisplaceDirectionModifier::Keep => direction,
        DisplaceDirectionModifier::Reverse => index_add(direction as int, (n / 2) as int, n),
        DisplaceDirectionModifier::SharpLeft => index_add(direction as int, if n == 6 { 2 * left } else { left }, n),
        DisplaceDirectionModifier::BluntLeft => index_add(direction as int, left, n),
        DisplaceDirectionModifier::SharpRight => index_add(direction as int, if n == 6 { -2 * left } else { -left }, n),
        DisplaceDirectionModifier::BluntRight => index_add(direction as int, -left, n),
    }
}

impl DisplaceDirectionModifier {
    /// The target with its push direction turned by this modifier.
    pub fn modify<D: Direction>(&self, dp: &OrientedPoint<D>) -> (r: OrientedPoint<D>)
        ensures
            r.point == dp.point,
            r.mirrored == dp.mirrored,
            r.direction.index() == displaced_direction::<D>(*self, dp.mirrored, dp.direction.index()),
    {
        proof {
            D::lemma_numbering();
        }
        let mut result = *dp;
        let hex = D::is_hex();
        match self {
            DisplaceDirectionModifier::Keep => {},
            DisplaceDirectionModifier::Reverse => {
                result.direction = result.direction.opposite_direction();
            },
            DisplaceDirectionModifier::SharpLeft if hex => {
                result.direction = rotate_times(result.direction, dp.mirrored, 2);
            },
            DisplaceDirectionModifier::BluntLeft if hex => {
                result.direction = rotate_times(result.direction, dp.mirrored, 1);
            },
            DisplaceDirectionModifier::SharpRight if hex => {
                result.direction = rotate_times(result.direction, !dp.mirrored, 2);
            },
            DisplaceDirectionModifier::BluntRight if hex => {
                result.direction = rotate_times(result.direction, !dp.mirrored, 1);
            },
            DisplaceDirectionModifier::SharpLeft | DisplaceDirectionModifier::BluntLeft => {
                result.direction = result.direction.rotate(dp.mirrored);
            },
            DisplaceDirectionModifier::SharpRight | DisplaceDirectionModifier::BluntRight => {
                result.direction = result.direction.rotate(!dp.mirrored);
            },
        }
        proof {
            crate::direction::lemma_index_add_wrap(dp.direction.index() as int, 0, D::spec_count());
        }
        result
    }
}

/// Reversing turns a push around, on square and hex boards alike and
/// whether the field is seen mirrored or not: the result is the opposite
/// direction, half a turn away and never the push's own direction, and
/// reversing it again gives the push back.
pub proof fn lemma_reverse_turns_around<D: Direction>(mirrored: bool, d: nat)
    requires
        d < D::spec_count(),
    ensures
        displaced_direction::<D>(DisplaceDirectionModifier::Reverse, mirrored, d) < D::spec_count(),
        displaced_direction::<D>(DisplaceDirectionModifier::Reverse, mirrored, d) != d,
        d < D::spec_count() / 2 ==> displaced_direction::<D>(DisplaceDirectionModifier::Reverse, mirrored, d) == d + D::spec_count() / 2,
        d >= D::spec_count() / 2 ==> displaced_direction::<D>(DisplaceDirectionModifier::Reverse, mirrored, d) == d - D::spec_count() / 2,
        displaced_direction::<D>(
            DisplaceDirectionModifier::Reverse,
            mirrored,
            displaced_direction::<D>(DisplaceDirectionModifier::Reverse, mirrored, d),
        ) == d,
        displaced_direction::<D>(DisplaceDirectionModifier::Reverse, !mirrored, d)
            == displaced_direction::<D>(DisplaceDirectionModifier::Reverse, mirrored, d),
{
    D::lemma_numbering();
    let n = D::spec_count();
    let h = (n / 2) as int;
    assert(h * 2 == n);
    crate::direction::lemma_index_add_wrap(d as int, h, n);
    let r = displaced_direction::<D>(DisplaceDirectionModifier::Reverse, mirrored, d);
    crate::direction::lemma_index_add_wrap(r as int, h, n);
}

/// Turning a push to the left and then to the right, bluntly or sharply,
/// gives it back; and a turn never keeps the push's direction.
pub proof fn lemma_left_then_right<D: Direction>(mirrored: bool, d: nat)
    requires
        d < D::spec_count(),
    ensures
        displaced_direction::<D>(
            DisplaceDirectionModifier::BluntRight,
            mirrored,
            displaced_direction::<D>(DisplaceDirectionModifier::BluntLeft, mirrored, d),
        ) == d,
        displaced_direction::<D>(
            DisplaceDirectionModifier::SharpRight,
            mirrored,
            displaced_direction::<D>(DisplaceDirectionModifier::SharpLeft, mirrored, d),
        ) == d,
        displaced_direction::<D>(DisplaceDirectionModifier::BluntLeft, mirrored, d) != d,
        displaced_direction::<D>(DisplaceDirectionModifier::SharpLeft, mirrored, d) != d,
        displaced_direction::<D>(DisplaceDirectionModifier::BluntRight, mirrored, d) != d,
        displaced_direction::<D>(DisplaceDirectionModifier::SharpRight, mirrored, d) != d,
{
    D::lemma_numbering();
    let n = D::spec_count();
    let left: int = if mirrored { -1 } else { 1 };
    let sharp: int = if n == 6 { 2 * left } else { left };
    crate::direction::lemma_index_add_wrap(d as int, left, n);
    crate::direction::lemma_index_add_wrap(d as int, -left, n);
    crate::direction::lemma_index_add_wrap(d as int, sharp, n);
    crate::direction::lemma_index_add_wrap(d as int, -sharp, n);
    let bl = displaced_direction::<D>(DisplaceDirectionModifier::BluntLeft, mirrored, d);
    let sl = displaced_direction::<D>(DisplaceDirectionModifier::SharpLeft, mirrored, d);
    crate::direction::lemma_index_add_wrap(bl as int, -left, n);
    crate::direction::lemma_index_add_wrap(sl as int, -sharp, n);
}

/// Keeping leaves a push alone; seen mirrored, left and right change
/// places; a blunt turn is one step to the neighboring direction
/// (counter-clockwise for left on a field not seen mirrored); on hex boards
/// a sharp turn is two blunt turns, on square boards it is one.
pub proof fn lemma_turns<D: Direction>(mirrored: bool, d: nat)
    requires
        d < D::spec_count(),
    ensures
        displaced_direction::<D>(DisplaceDirectionModifier::Keep, mirrored, d) == d,
        displaced_direction::<D>(DisplaceDirectionModifier::BluntLeft, true, d) == displaced_direction::<D>(DisplaceDirectionModifier::BluntRight, false, d),
        displaced_direction::<D>(DisplaceDirectionModifier::SharpLeft, true, d) == displaced_direction::<D>(DisplaceDirectionModifier::SharpRight, false, d),
        d + 1 < D::spec_count() ==> displaced_direction::<D>(DisplaceDirectionModifier::BluntLeft, false, d) == d + 1,
        d + 1 == D::spec_count() ==> displaced_direction::<D>(DisplaceDirectionModifier::BluntLeft, false, d) == 0,
        D::spec_count() == 6 ==> displaced_direction::<D>(DisplaceDirectionModifier::SharpLeft, mirrored, d)
            == displaced_direction::<D>(
                DisplaceDirectionModifier::BluntLeft,
                mirrored,
                displaced_direction::<D>(DisplaceDirectionModifier::BluntLeft, mirrored, d),
            ),
        D::spec_count() == 6 ==> displaced_direction::<D>(DisplaceDirectionModifier::SharpRight, mirrored, d)
            == displaced_direction::<D>(
                DisplaceDirectionModifier::BluntRight,
                mirrored,
                displaced_direction::<D>(DisplaceDirectionModifier::BluntRight, mirrored, d),
            ),
        D::spec_count() != 6 ==> displaced_direction::<D>(DisplaceDirectionModifier::SharpLeft, mirrored, d)
            == displaced_direction::<D>(DisplaceDirectionModifier::BluntLeft, mirrored, d),
        D::spec_count() != 6 ==> displaced_direction::<D>(DisplaceDirectionModifier::SharpRight, mirrored, d)
            == displaced_direction::<D>(DisplaceDirectionModifier::BluntRight, mirrored, d),
{
    D::lemma_numbering();
    let n = D::spec_count();
    crate::direction::lemma_index_add_wrap(d as int, 0, n);
    crate::direction::lemma_index_add_wrap(d as int, 1, n);
    crate::direction::lemma_index_add_wrap(d as int, -1, n);
    crate::direction::lemma_index_add_wrap(d as int, 2, n);
    crate::direction::lemma_index_add_wrap(d as int, -2, n);
    let l = index_add(d as int, if mirrored { -1 } else { 1 }, n);
    let r = index_add(d as int, if mirrored { 1 } else { -1 }, n);
    crate::direction::lemma_index_add_wrap(l as int, if mirrored { -1 } else { 1 }, n);
    crate::direction::lemma_index_add_wrap(r as int, if mirrored { 1 } else { -1 }, n);
}

/// The word a displacement modifier is written as, trimmed; empty means
/// `Keep`. Anything else is `UnknownEnumMember` with the text as given.
pub open spec fn spec_displace_modifier_from_conf(s: Seq<char>) -> Result<(DisplaceDirectionModifier, Seq<char>), ConfigError> {
    let t = spec_trim(s);
    if t == ""@ || t == "Keep"@ {
        Ok((DisplaceDirectionModifier::Keep, seq![]))
    } else if t == "Reverse"@ {
        Ok((DisplaceDirectionModifier::Reverse, seq![]))
    } else if t == "SharpLeft"@ {
        Ok((DisplaceDirectionModifier::SharpLeft, seq![]))
    } else if t == "BluntLeft"@ {
        Ok((DisplaceDirectionModifier::BluntLeft, seq![]))
    } else if t == "SharpRight"@ {
        Ok((DisplaceDirectionModifier::SharpRight, seq![]))
    } else if t == "BluntRight"@ {
        Ok((DisplaceDirectionModifier::BluntRight, seq![]))
    } else {
        Err(ConfigError::UnknownEnumMember("DisplaceDirectionModifier::"@ + s))
    }
}

impl FromConfig for DisplaceDirectionModifier {
    open spec fn spec_from_conf(s: Seq<char>, names: LoaderNames) -> Result<(Self, Seq<char>), ConfigError> {
        spec_displace_modifier_from_conf(s)
    }

    fn from_conf<'a>(s: &'a [char], loader: &FileLoader) -> (r: Result<(Self, &'a [char]), ConfigParseError>) {
        let t = trim(s);
        let empty = suffix(s, s.len());
        assert(empty@ =~= seq![]);
        let m = if is_word(t, "") || is_word(t, "Keep") {
            DisplaceDirectionModifier::Keep
        } else if is_word(t, "Reverse") {
            DisplaceDirectionModifier::Reverse
        } else if is_word(t, "SharpLeft") {
            DisplaceDirectionModifier::SharpLeft
        } else if is_word(t, "BluntLeft") {
            DisplaceDirectionModifier::BluntLeft
        } else if is_word(t, "SharpRight") {
            DisplaceDirectionModifier::SharpRight
        } else if is_word(t, "BluntRight") {
            DisplaceDirectionModifier::BluntRight
        } else {
            let message = framed_text("DisplaceDirectionModifier::", s, "");
            proof {
                reveal_strlit("");
                assert(message@ =~= "DisplaceDirectionModifier::"@ + s@);
            }
            return Err(ConfigParseError::UnknownEnumMember(message));
        };
        Ok((m, empty))
    }
}

/// The targets an attack may pick, as the configuration writes them: empty
/// or `Enemy`, `Friendly`, `All`, or else the reference of a script
/// function without parameters that decides.
pub open spec fn spec_valid_targets_from_conf(s: Seq<char>, names: LoaderNames) -> (Result<(ValidAttackTargets, Seq<char>), ConfigError>, LoaderNames) {
    let t = spec_trim(s);
    if t == ""@ || t == "Enemy"@ {
        (Ok((ValidAttackTargets::Enemy, seq![])), names)
    } else if t == "Friendly"@ {
        (Ok((ValidAttackTargets::Friendly, seq![])), names)
    } else if t == "All"@ {
        (Ok((ValidAttackTargets::All, seq![])), names)
    } else {
        let (f, n) = spec_rhai_step(names, t, 0, 0);
        (match f {
            Ok(p) => Ok((ValidAttackTargets::Rhai(p.index), seq![])),
            Err(e) => Err(e),
        }, n)
    }
}

impl ValidAttackTargets {
    /// Reads the valid targets; a script reference gets registered with the
    /// loader.
    pub fn from_conf<'a>(s: &'a [char], loader: &mut FileLoader) -> (r: Result<(ValidAttackTargets, &'a [char]), ConfigParseError>)
        ensures
            (match r { Ok((v, rest)) => Ok((v, rest@)), Err(e) => Err(e@) }, final(loader)@) == spec_valid_targets_from_conf(s@, old(loader)@),
    {
        let t = trim(s);
        let empty = suffix(s, s.len());
        assert(empty@ =~= seq![]);
        if is_word(t, "") || is_word(t, "Enemy") {
            Ok((ValidAttackTargets::Enemy, empty))
        } else if is_word(t, "Friendly") {
            Ok((ValidAttackTargets::Friendly, empty))
        } else if is_word(t, "All") {
            Ok((ValidAttackTargets::All, empty))
        } else {
            match loader.rhai_function(t, 0, 0) {
                Ok(p) => Ok((ValidAttackTargets::Rhai(p.index), empty)),
                Err(e) => Err(e),
            }
        }
    }
}

/// The type of an attack: none, or the attack type with this index.
#[derive(Debug, Clone, Copy, PartialEq, Eq, Structural, Hash)]
pub struct AttackType(pub Option<usize>);

impl FromConfig for AttackType {
    /// `None`, or an attack type by its name; an unknown name is
    /// `UnknownEnumMember`.
    open spec fn spec_from_conf(s: Seq<char>, names: LoaderNames) -> Result<(AttackType, Seq<char>), ConfigError> {
        let (i, base, rest) = spec_lookup(names.attack_types, s);
        if base == "None"@ {
            Ok((AttackType(None), rest))
        } else {
            match i {
                Some(i) => Ok((AttackType(Some(i as usize)), rest)),
                None => Err(ConfigError::UnknownEnumMember(qualified("AttackType"@, base, None))),
            }
        }
    }

    fn from_conf<'a>(s: &'a [char], loader: &FileLoader) -> (r: Result<(AttackType, &'a [char]), ConfigParseError>) {
        let (base, rest) = string_base(s);
        if is_word(base, "None") {
            return Ok((AttackType(None), rest));
        }
        match position_of(loader.attack_types_names(), base) {
            Some(i) => Ok((AttackType(Some(i)), rest)),
            None => Err(ConfigParseError::UnknownEnumMember(qualified_text("AttackType", base, None))),
        }
    }
}

/// The attack type that a line of the attack table declares, named by the
/// whole cell `s`: an empty name is `NameTooShort` and `None` is refused as
/// `InvalidColumnValue`; a known name gives its index, an unknown one is
/// added to the loader's attack types.
pub open spec fn spec_attack_type_parse_new(s: Seq<char>, names: LoaderNames) -> (Result<AttackType, ConfigError>, LoaderNames) {
    if s.len() == 0 {
        (Err(ConfigError::NameTooShort), names)
    } else if s == "None"@ {
        (Err(ConfigError::InvalidColumnValue("AttackType"@, "None"@)), names)
    } else {
        let (i, ns) = spec_register(names.attack_types, s);
        (Ok(AttackType(Some(i as usize))), LoaderNames { attack_types: ns, ..names })
    }
}

impl AttackType {
    /// Declares the attack type named `s`; see `spec_attack_type_parse_new`.
    pub fn parse_new(s: &[char], loader: &mut FileLoader) -> (r: Result<AttackType, ConfigParseError>)
        ensures
            (match r { Ok(t) => Ok(t), Err(e) => Err(e@) }, final(loader)@) == spec_attack_type_parse_new(s@, old(loader)@),
    {
        if s.len() == 0 {
            return Err(ConfigParseError::NameTooShort);
        }
        if is_word(s, "None") {
            return Err(ConfigParseError::InvalidColumnValue("AttackType".to_string(), "None".to_string()));
        }
        let i = loader.register_attack_type(s);
        Ok(AttackType(Some(i)))
    }
}

} // verus!
