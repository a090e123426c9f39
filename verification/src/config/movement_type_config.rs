use vstd::prelude::*;

use crate::config::file_loader::{spec_add_names, FileLoader, LoaderNames, NameKind};
use crate::config::listing::{first_named, framed_text, listed_from_conf, position_of, spec_listed_from_conf, Listable};
use crate::config::parse::FromConfig;
use crate::config::table::{cell, parse_vec_def, spec_parse_vec_cell, TableHeader, TableLine, TableRow};
use crate::config::text::{spec_trim, to_string, trim};
use crate::config::{ConfigError, ConfigParseError};
use crate::units::MovementType;

use crate::direction::{index_add, Direction, Distortion};
use crate::movement::{ExtraMovementOptions, PathStep, PathStepTakes, PbEntry, TBallast};

verus! {

/// How a unit type walks across the board.
#[derive(Debug, Clone, Copy, PartialEq, Eq, Structural, Hash)]
pub enum MovementPattern {
    Standard,
    StandardLoopLess,
    NoMovement,
    /// like a rook
    Straight,
    /// like a bishop
    Diagonal,
    /// like a queen
    Rays,
    Knight,
    Pawn,
}

impl Listable for MovementPattern {
    open spec fn spec_list() -> Seq<Self> {
        seq![Self::Standard, Self::StandardLoopLess, Self::NoMovement, Self::Straight, Self::Diagonal, Self::Rays, Self::Knight, Self::Pawn]
    }

    open spec fn spec_name(self) -> Seq<char> {
        match self {
            Self::Standard => "Standard"@,
            Self::StandardLoopLess => "StandardLoopLess"@,
            Self::NoMovement => "None"@,
            Self::Straight => "Straight"@,
            Self::Diagonal => "Diagonal"@,
            Self::Rays => "Rays"@,
            Self::Knight => "Knight"@,
            Self::Pawn => "Pawn"@,
        }
    }

    open spec fn spec_kind_name() -> Seq<char> {
        "MovementPattern"@
    }

    fn list() -> (r: Vec<Self>) {
        vec![Self::Standard, Self::StandardLoopLess, Self::NoMovement, Self::Straight, Self::Diagonal, Self::Rays, Self::Knight, Self::Pawn]
    }

    fn name(&self) -> (r: &'static str) {
        match self {
            Self::Standard => "Standard",
            Self::StandardLoopLess => "StandardLoopLess",
            Self::NoMovement => "None",
            Self::Straight => "Straight",
            Self::Diagonal => "Diagonal",
            Self::Rays => "Rays",
            Self::Knight => "Knight",
            Self::Pawn => "Pawn",
        }
    }

    fn kind_name() -> (r: &'static str) {
        "MovementPattern"
    }
}

impl FromConfig for MovementPattern {
    open spec fn spec_from_conf(s: Seq<char>, names: LoaderNames) -> Result<(Self, Seq<char>), ConfigError> {
        spec_listed_from_conf::<Self>(s)
    }

    fn from_conf<'a>(s: &'a [char], loader: &FileLoader) -> (r: Result<(Self, &'a [char]), ConfigParseError>) {
        listed_from_conf(s)
    }
}

/// All directions, counter-clockwise from `angle_0`.
pub open spec fn all_directions<D: Direction>() -> Seq<D> {
    Seq::new(D::spec_count(), |i: int| D::from_index(i))
}

/// The steps a pattern other than the pawn's offers for each direction of
/// `dirs`, one direction after the other.
pub open spec fn pattern_steps<D>(p: MovementPattern, extra: ExtraMovementOptions, dirs: Seq<D>) -> Seq<PathStep<D>>
    decreases dirs.len(),
{
    if dirs.len() == 0 {
        seq![]
    } else {
        pattern_steps(p, extra, dirs.drop_last()) + steps_toward(p, extra, dirs.last())
    }
}

/// The steps a pawn without a fixed direction offers for each direction of
/// `dirs`, one direction after the other.
pub open spec fn free_pawn_steps<D>(step_id: nat, dirs: Seq<D>) -> Seq<PathStep<D>>
    decreases dirs.len(),
{
    if dirs.len() == 0 {
        seq![]
    } else {
        free_pawn_steps(step_id, dirs.drop_last()) + pawn_steps_toward(step_id, dirs.last())
    }
}

/// A straight step in direction `d`, followed by a jump if the terrain allows jumps.
pub open spec fn straight_steps<D>(d: D, extra: ExtraMovementOptions) -> Seq<PathStep<D>> {
    match extra {
        ExtraMovementOptions::Jump => seq![PathStep::Dir(d), PathStep::Jump(d)],
        ExtraMovementOptions::NoExtra => seq![PathStep::Dir(d)],
    }
}

/// The steps a pattern other than the pawn's offers in direction `d`.
pub open spec fn steps_toward<D>(p: MovementPattern, extra: ExtraMovementOptions, d: D) -> Seq<PathStep<D>> {
    match p {
        MovementPattern::Standard | MovementPattern::StandardLoopLess | MovementPattern::Straight => straight_steps(d, extra),
        MovementPattern::Diagonal => seq![PathStep::Diagonal(d)],
        MovementPattern::Rays => straight_steps(d, extra).push(PathStep::Diagonal(d)),
        MovementPattern::Knight => seq![PathStep::Knight(d, true), PathStep::Knight(d, false)],
        MovementPattern::NoMovement | MovementPattern::Pawn => seq![],
    }
}

/// The steps a pawn without a fixed direction offers in direction `d`:
/// diagonal steps only as its first step.
pub open spec fn pawn_steps_toward<D>(step_id: nat, d: D) -> Seq<PathStep<D>> {
    if step_id == 0 {
        seq![PathStep::Dir(d), PathStep::Diagonal(d)]
    } else {
        seq![PathStep::Dir(d)]
    }
}

/// Whether one entry of the temporary ballast allows `step`.
pub open spec fn ballast_allows<D: Direction>(t: TBallast<D>, step: PathStep<D>) -> bool {
    match (t, step) {
        (TBallast::ForbiddenDirection(Some(d1)), PathStep::Dir(d2)) => d1.index() != d2.index(),
        (TBallast::Direction(Some(d1)), PathStep::Dir(d2)) => d1.index() == d2.index(),
        (TBallast::Direction(Some(_)), _) => false,
        (TBallast::DiagonalDirection(Some(d1)), PathStep::Diagonal(d2)) => d1.index() == d2.index(),
        (TBallast::DiagonalDirection(Some(_)), _) => false,
        _ => true,
    }
}

/// Whether the whole temporary ballast allows `step`.
pub open spec fn step_allowed<D: Direction>(ballast: Seq<TBallast<D>>, step: PathStep<D>) -> bool {
    forall|k: int| 0 <= k < ballast.len() ==> ballast_allows(#[trigger] ballast[k], step)
}

/// The steps of `steps` that the ballast allows, in order.
pub open spec fn allowed_steps<D: Direction>(steps: Seq<PathStep<D>>, ballast: Seq<TBallast<D>>) -> Seq<PathStep<D>>
    decreases steps.len(),
{
    if steps.len() == 0 {
        seq![]
    } else if step_allowed(ballast, steps.last()) {
        allowed_steps(steps.drop_last(), ballast).push(steps.last())
    } else {
        allowed_steps(steps.drop_last(), ballast)
    }
}

/// The steps of a pawn: forward, and diagonally forward as its first step.
/// Only the first ballast entry counts.
pub open spec fn pawn_steps<D: Direction>(step_id: nat, ballast: Seq<TBallast<D>>) -> Seq<PathStep<D>> {
    let free = free_pawn_steps(step_id, all_directions::<D>());
    if ballast.len() > 0 {
        match ballast[0] {
            TBallast::Direction(Some(d)) => if step_id == 0 {
                seq![PathStep::Dir(d), PathStep::Diagonal(d), PathStep::Diagonal(D::from_index(d.index() - 1))]
            } else {
                seq![PathStep::Dir(d)]
            },
            _ => free,
        }
    } else {
        free
    }
}

/// The next steps a unit with this pattern may take.
pub open spec fn spec_find_steps<D: Direction>(
    p: MovementPattern,
    step_id: nat,
    ballast: Seq<TBallast<D>>,
    extra: ExtraMovementOptions,
) -> Seq<PathStep<D>> {
    if p == MovementPattern::Pawn {
        pawn_steps(step_id, ballast)
    } else {
        allowed_steps(pattern_steps(p, extra, all_directions::<D>()), ballast)
    }
}

/// The direction of the first pawn entry of the permanent ballast.
pub open spec fn first_pawn_direction<D>(permanent: Seq<PbEntry<D>>) -> Option<D>
    decreases permanent.len(),
{
    if permanent.len() == 0 {
        None
    } else {
        match permanent[0] {
            PbEntry::PawnDirection(d) => Some(d),
        }
    }
}

/// The entries a pattern adds to the temporary ballast when a unit starts moving.
pub open spec fn ballast_added<D>(p: MovementPattern, chess: bool, permanent: Seq<PbEntry<D>>) -> Seq<TBallast<D>> {
    match p {
        MovementPattern::Standard | MovementPattern::StandardLoopLess => seq![TBallast::ForbiddenDirection(None)],
        MovementPattern::Straight => seq![TBallast::Direction(None)],
        MovementPattern::Diagonal => seq![TBallast::DiagonalDirection(None)],
        MovementPattern::Pawn => seq![TBallast::Direction(if chess { first_pawn_direction(permanent) } else { None })],
        MovementPattern::NoMovement | MovementPattern::Knight => seq![],
        MovementPattern::Rays => seq![TBallast::Direction(None), TBallast::DiagonalDirection(None)],
    }
}

/// What a ballast entry becomes after the unit takes `step`, which picked up
/// `dist` on the way.
pub open spec fn updated_ballast<D: Direction>(
    p: MovementPattern,
    step: PathStep<D>,
    dist: Distortion<D>,
    t: TBallast<D>,
) -> TBallast<D> {
    match t {
        TBallast::Direction(_) => TBallast::Direction(
            match step.spec_dir() {
                Some(d) => Some(D::from_index(dist.apply(d.index()) as int)),
                None => None,
            },
        ),
        TBallast::DiagonalDirection(_) => TBallast::DiagonalDirection(
            match step.spec_diagonal_dir() {
                Some(d) => Some(D::from_index(dist.apply_diagonal(d.index()) as int)),
                None => None,
            },
        ),
        TBallast::ForbiddenDirection(_) => TBallast::ForbiddenDirection(
            match step.spec_dir() {
                Some(d) => Some(
                    D::from_index(
                        dist.apply(index_add(d.index() as int, (D::spec_count() / 2) as int, D::spec_count())) as int,
                    ),
                ),
                None => None,
            },
        ),
        TBallast::MovementPoints(_) => t,
        TBallast::Takes(_) => TBallast::Takes(
            match p {
                MovementPattern::NoMovement | MovementPattern::Standard | MovementPattern::StandardLoopLess => PathStepTakes::Deny,
                MovementPattern::Straight | MovementPattern::Diagonal | MovementPattern::Knight | MovementPattern::Rays => PathStepTakes::Allow,
                MovementPattern::Pawn => if step is Diagonal {
                    PathStepTakes::Force
                } else {
                    PathStepTakes::Deny
                },
            },
        ),
    }
}

/// The full list of directions equals `all_directions`.
proof fn lemma_list_is_all<D: Direction>(v: Seq<D>)
    requires
        v.len() == D::spec_count(),
        forall|i: int| 0 <= i < v.len() ==> (#[trigger] v[i]).index() == i,
    ensures
        v == all_directions::<D>(),
{
    D::lemma_numbering();
    assert forall|i: int| 0 <= i < v.len() implies v[i] == all_directions::<D>()[i] by {
        assert(D::from_index(v[i].index() as int) == v[i]);
    }
    assert(v =~= all_directions::<D>());
}

impl MovementPattern {
    pub fn list() -> (v: Vec<MovementPattern>)
        ensures
            v@ == seq![
                MovementPattern::Standard,
                MovementPattern::StandardLoopLess,
                MovementPattern::NoMovement,
                MovementPattern::Straight,
                MovementPattern::Diagonal,
                MovementPattern::Rays,
                MovementPattern::Knight,
                MovementPattern::Pawn,
            ],
    {
        vec![
            MovementPattern::Standard,
            MovementPattern::StandardLoopLess,
            MovementPattern::NoMovement,
            MovementPattern::Straight,
            MovementPattern::Diagonal,
            MovementPattern::Rays,
            MovementPattern::Knight,
            MovementPattern::Pawn,
        ]
    }

    /// Whether units with this pattern may move through friendly units.
    pub fn can_pass_friendly(&self) -> (b: bool)
        ensures
            b == (*self == MovementPattern::Standard || *self == MovementPattern::StandardLoopLess),
    {
        match self {
            MovementPattern::Standard | MovementPattern::StandardLoopLess => true,
            _ => false,
        }
    }

    /// Adds the entries this pattern needs to the temporary ballast of a
    /// unit that starts moving. On chess terrain a pawn takes its direction
    /// from the permanent ballast.
    pub fn add_temporary_ballast<D: Direction>(
        &self,
        terrain_is_chess: bool,
        permanent_ballast: &Vec<PbEntry<D>>,
        temporary_ballast: &mut Vec<TBallast<D>>,
    )
        requires
            *self == MovementPattern::Pawn && terrain_is_chess ==> first_pawn_direction(permanent_ballast@) is Some,
        ensures
            final(temporary_ballast)@ == old(temporary_ballast)@ + ballast_added(*self, terrain_is_chess, permanent_ballast@),
    {
        let ghost start = temporary_ballast@;
        match self {
            MovementPattern::Standard | MovementPattern::StandardLoopLess => {
                temporary_ballast.push(TBallast::ForbiddenDirection(None));
            },
            MovementPattern::Straight => {
                temporary_ballast.push(TBallast::Direction(None));
            },
            MovementPattern::Diagonal => {
                temporary_ballast.push(TBallast::DiagonalDirection(None));
            },
            MovementPattern::Pawn => {
                let mut dir: Option<D> = None;
                if terrain_is_chess && permanent_ballast.len() > 0 {
                    match &permanent_ballast[0] {
                        PbEntry::PawnDirection(d) => {
                            dir = Some(*d);
                        },
                    }
                }
                temporary_ballast.push(TBallast::Direction(dir));
            },
            MovementPattern::NoMovement => {},
            MovementPattern::Knight => {},
            MovementPattern::Rays => {
                temporary_ballast.push(TBallast::Direction(None));
                temporary_ballast.push(TBallast::DiagonalDirection(None));
            },
        }
        assert(temporary_ballast@ =~= start + ballast_added(*self, terrain_is_chess, permanent_ballast@));
    }
}


fn ballast_allows_exec<D: Direction>(t: &TBallast<D>, step: &PathStep<D>) -> (b: bool)
    ensures
        b == ballast_allows(*t, *step),
{
    match (t, step) {
        (TBallast::ForbiddenDirection(Some(d1)), PathStep::Dir(d2)) => !d1.is_same(d2),
        (TBallast::Direction(Some(d1)), PathStep::Dir(d2)) => d1.is_same(d2),
        (TBallast::Direction(Some(_)), _) => false,
        (TBallast::DiagonalDirection(Some(d1)), PathStep::Diagonal(d2)) => d1.is_same(d2),
        (TBallast::DiagonalDirection(Some(_)), _) => false,
        _ => true,
    }
}

fn step_allowed_exec<D: Direction>(ballast: &Vec<TBallast<D>>, step: &PathStep<D>) -> (b: bool)
    ensures
        b == step_allowed(ballast@, *step),
{
    let mut k: usize = 0;
    while k < ballast.len()
        invariant
            k <= ballast.len(),
            forall|j: int| 0 <= j < k ==> ballast_allows(#[trigger] ballast@[j], *step),
        decreases ballast.len() - k,
    {
        if !ballast_allows_exec(&ballast[k], step) {
            return false;
        }
        k += 1;
    }
    true
}

impl MovementPattern {
    fn push_steps_toward<D: Direction>(&self, extra: ExtraMovementOptions, d: D, out: &mut Vec<PathStep<D>>)
        requires
            *self != MovementPattern::Pawn,
        ensures
            final(out)@ == old(out)@ + steps_toward(*self, extra, d),
    {
        let ghost start = out@;
        match self {
            MovementPattern::Standard | MovementPattern::StandardLoopLess | MovementPattern::Straight => {
                out.push(PathStep::Dir(d));
                match extra {
                    ExtraMovementOptions::Jump => out.push(PathStep::Jump(d)),
                    ExtraMovementOptions::NoExtra => {},
                }
            },
            MovementPattern::Diagonal => {
                out.push(PathStep::Diagonal(d));
            },
            MovementPattern::Rays => {
                out.push(PathStep::Dir(d));
                match extra {
                    ExtraMovementOptions::Jump => out.push(PathStep::Jump(d)),
                    ExtraMovementOptions::NoExtra => {},
                }
                out.push(PathStep::Diagonal(d));
            },
            MovementPattern::Knight => {
                out.push(PathStep::Knight(d, true));
                out.push(PathStep::Knight(d, false));
            },
            MovementPattern::NoMovement | MovementPattern::Pawn => {},
        }
        assert(out@ =~= start + steps_toward(*self, extra, d));
    }

    fn pawn_steps<D: Direction>(step_id: usize, temporary_ballast: &Vec<TBallast<D>>) -> (r: Vec<PathStep<D>>)
        ensures
            r@ == pawn_steps(step_id as nat, temporary_ballast@),
    {
        let mut result: Vec<PathStep<D>> = Vec::new();
        if temporary_ballast.len() > 0 {
            match &temporary_ballast[0] {
                TBallast::Direction(Some(d)) => {
                    result.push(PathStep::Dir(*d));
                    if step_id == 0 {
                        result.push(PathStep::Diagonal(*d));
                        let r = d.rotate(true);
                        proof {
                            D::lemma_numbering();
                            assert(D::from_index(r.index() as int) == r);
                            assert(D::from_index(d.index() - 1).index() == r.index());
                            assert(D::from_index(D::from_index(d.index() - 1).index() as int) == D::from_index(d.index() - 1));
                        }
                        result.push(PathStep::Diagonal(r));
                    }
                    assert(result@ =~= pawn_steps(step_id as nat, temporary_ballast@));
                    return result;
                },
                _ => {},
            }
        }
        let dirs = D::list();
        proof {
            lemma_list_is_all(dirs@);
        }
        let mut i: usize = 0;
        while i < dirs.len()
            invariant
                i <= dirs.len(),
                result@ == free_pawn_steps(step_id as nat, dirs@.take(i as int)),
            decreases dirs.len() - i,
        {
            let ghost before = result@;
            result.push(PathStep::Dir(dirs[i]));
            if step_id == 0 {
                result.push(PathStep::Diagonal(dirs[i]));
            }
            assert(dirs@.take(i + 1).drop_last() =~= dirs@.take(i as int));
            assert(result@ =~= before + pawn_steps_toward(step_id as nat, dirs@[i as int]));
            i += 1;
        }
        assert(dirs@.take(dirs.len() as int) =~= dirs@);
        result
    }

    /// The steps a unit with this pattern may take next; `step_id` counts the
    /// steps it already took on this path.
    pub fn find_steps<D: Direction>(
        &self,
        step_id: usize,
        temporary_ballast: &Vec<TBallast<D>>,
        extra_movement_options: ExtraMovementOptions,
    ) -> (r: Vec<PathStep<D>>)
        ensures
            r@ == spec_find_steps(*self, step_id as nat, temporary_ballast@, extra_movement_options),
    {
        if *self == MovementPattern::Pawn {
            return Self::pawn_steps(step_id, temporary_ballast);
        }
        let dirs = D::list();
        proof {
            lemma_list_is_all(dirs@);
        }
        let mut candidates: Vec<PathStep<D>> = Vec::new();
        let mut i: usize = 0;
        while i < dirs.len()
            invariant
                i <= dirs.len(),
                *self != MovementPattern::Pawn,
                candidates@ == pattern_steps(*self, extra_movement_options, dirs@.take(i as int)),
            decreases dirs.len() - i,
        {
            self.push_steps_toward(extra_movement_options, dirs[i], &mut candidates);
            assert(dirs@.take(i + 1).drop_last() =~= dirs@.take(i as int));
            i += 1;
        }
        assert(dirs@.take(dirs.len() as int) =~= dirs@);
        let mut result: Vec<PathStep<D>> = Vec::new();
        let mut j: usize = 0;
        while j < candidates.len()
            invariant
                j <= candidates.len(),
                result@ == allowed_steps(candidates@.take(j as int), temporary_ballast@),
            decreases candidates.len() - j,
        {
            assert(candidates@.take(j + 1).drop_last() =~= candidates@.take(j as int));
            if step_allowed_exec(temporary_ballast, &candidates[j]) {
                result.push(candidates[j]);
            }
            j += 1;
        }
        assert(candidates@.take(candidates.len() as int) =~= candidates@);
        result
    }
}


/// Whether the temporary ballast holds no movement points, which the
/// movement code handles before asking the pattern.
pub open spec fn no_movement_points<D>(ballast: Seq<TBallast<D>>) -> bool {
    forall|k: int| 0 <= k < ballast.len() ==> !(#[trigger] ballast[k] is MovementPoints)
}

impl MovementPattern {
    fn updated_ballast_exec<D: Direction>(&self, step: &PathStep<D>, step_distortion: Distortion<D>, t: TBallast<D>) -> (r: TBallast<D>)
        requires
            !(t is MovementPoints),
        ensures
            r == updated_ballast(*self, *step, step_distortion, t),
    {
        match t {
            TBallast::Direction(_) => TBallast::Direction(
                match step.dir() {
                    Some(d) => Some(step_distortion.update_direction(d)),
                    None => None,
                },
            ),
            TBallast::DiagonalDirection(_) => TBallast::DiagonalDirection(
                match step.diagonal_dir() {
                    Some(d) => Some(step_distortion.update_diagonal_direction(d)),
                    None => None,
                },
            ),
            TBallast::ForbiddenDirection(_) => TBallast::ForbiddenDirection(
                match step.dir() {
                    Some(d) => Some(step_distortion.update_direction(d.opposite_direction())),
                    None => None,
                },
            ),
            TBallast::MovementPoints(_) => t,
            TBallast::Takes(_) => TBallast::Takes(
                match self {
                    MovementPattern::NoMovement | MovementPattern::Standard | MovementPattern::StandardLoopLess => PathStepTakes::Deny,
                    MovementPattern::Straight | MovementPattern::Diagonal | MovementPattern::Knight | MovementPattern::Rays => PathStepTakes::Allow,
                    MovementPattern::Pawn => match step {
                        PathStep::Diagonal(_) => PathStepTakes::Force,
                        _ => PathStepTakes::Deny,
                    },
                },
            ),
        }
    }

    /// Updates the temporary ballast after the unit took `step`, which picked
    /// up `step_distortion` on the way.
    pub fn update_temporary_ballast<D: Direction>(
        &self,
        step: &PathStep<D>,
        step_distortion: Distortion<D>,
        temporary_ballast: &mut Vec<TBallast<D>>,
    )
        requires
            no_movement_points(old(temporary_ballast)@),
        ensures
            final(temporary_ballast)@.len() == old(temporary_ballast)@.len(),
            forall|k: int| 0 <= k < old(temporary_ballast)@.len() ==> #[trigger] final(temporary_ballast)@[k]
                == updated_ballast(*self, *step, step_distortion, old(temporary_ballast)@[k]),
    {
        let ghost start = temporary_ballast@;
        let mut i: usize = 0;
        while i < temporary_ballast.len()
            invariant
                i <= temporary_ballast.len(),
                temporary_ballast@.len() == start.len(),
                no_movement_points(start),
                forall|k: int| 0 <= k < i ==> #[trigger] temporary_ballast@[k] == updated_ballast(*self, *step, step_distortion, start[k]),
                forall|k: int| i <= k < start.len() ==> #[trigger] temporary_ballast@[k] == start[k],
            decreases temporary_ballast.len() - i,
        {
            let t = temporary_ballast[i];
            assert(t == start[i as int]);
            let u = self.updated_ballast_exec(step, step_distortion, t);
            temporary_ballast.set(i, u);
            i += 1;
        }
    }
}

proof fn lemma_allowed_steps_allowed<D: Direction>(steps: Seq<PathStep<D>>, ballast: Seq<TBallast<D>>)
    ensures
        forall|i: int| 0 <= i < allowed_steps(steps, ballast).len() ==> step_allowed(ballast, #[trigger] allowed_steps(steps, ballast)[i]),
    decreases steps.len(),
{
    if steps.len() > 0 {
        lemma_allowed_steps_allowed(steps.drop_last(), ballast);
        let prev = allowed_steps(steps.drop_last(), ballast);
        let all = allowed_steps(steps, ballast);
        assert forall|i: int| 0 <= i < all.len() implies step_allowed(ballast, #[trigger] all[i]) by {
            if i < prev.len() {
                assert(all[i] == prev[i]);
            }
        }
    }
}

/// Every step offered to a unit that doesn't move like a pawn is allowed
/// by each entry of its temporary ballast.
pub proof fn lemma_found_steps_allowed<D: Direction>(p: MovementPattern, step_id: nat, ballast: Seq<TBallast<D>>, extra: ExtraMovementOptions)
    requires
        p != MovementPattern::Pawn,
    ensures
        forall|i: int| 0 <= i < spec_find_steps(p, step_id, ballast, extra).len()
            ==> step_allowed(ballast, #[trigger] spec_find_steps(p, step_id, ballast, extra)[i]),
{
    lemma_allowed_steps_allowed(pattern_steps(p, extra, all_directions::<D>()), ballast);
}

/// A unit with the standard pattern never steps straight back: after a
/// step in direction `d` (turned by the distortion it picked up), the
/// steps it is offered next hold no step in the opposite direction.
pub proof fn lemma_no_turning_back<D: Direction>(
    p: MovementPattern,
    d: D,
    dist: Distortion<D>,
    step_id: nat,
    extra: ExtraMovementOptions,
    chess: bool,
    permanent: Seq<PbEntry<D>>,
)
    requires
        p == MovementPattern::Standard || p == MovementPattern::StandardLoopLess,
    ensures
        ({
            let ballast = ballast_added(p, chess, permanent).map_values(|t: TBallast<D>| updated_ballast(p, PathStep::Dir(d), dist, t));
            let back = D::from_index(dist.apply(index_add(d.index() as int, (D::spec_count() / 2) as int, D::spec_count())) as int);
            forall|i: int| 0 <= i < spec_find_steps(p, step_id, ballast, extra).len()
                ==> #[trigger] spec_find_steps(p, step_id, ballast, extra)[i] != PathStep::Dir(back)
        }),
{
    let ballast = ballast_added(p, chess, permanent).map_values(|t: TBallast<D>| updated_ballast(p, PathStep::Dir(d), dist, t));
    let back = D::from_index(dist.apply(index_add(d.index() as int, (D::spec_count() / 2) as int, D::spec_count())) as int);
    lemma_found_steps_allowed(p, step_id, ballast, extra);
    assert(ballast[0] == TBallast::ForbiddenDirection(Some(back)));
    assert forall|i: int| 0 <= i < spec_find_steps(p, step_id, ballast, extra).len()
        implies #[trigger] spec_find_steps(p, step_id, ballast, extra)[i] != PathStep::Dir(back) by {
        let s = spec_find_steps(p, step_id, ballast, extra)[i];
        assert(step_allowed(ballast, s));
        assert(ballast_allows(ballast[0], s));
    }
}

/// A movement type: its name and the movement types a unit of it can take
/// on, depending on the terrain.
#[derive(Debug)]
pub struct MovementTypeConfig {
    pub name: String,
    pub sub_types: Vec<MovementType>,
}

pub struct MovementTypeConfigView {
    pub name: Seq<char>,
    pub sub_types: Seq<MovementType>,
}

impl View for MovementTypeConfig {
    type V = MovementTypeConfigView;

    open spec fn view(&self) -> MovementTypeConfigView {
        MovementTypeConfigView { name: self.name@, sub_types: self.sub_types@ }
    }
}

/// The columns of the movement type table.
#[derive(Debug, Clone, Copy, PartialEq, Eq, Structural, Hash)]
pub enum MovementTypeConfigHeader {
    Name,
    SubTypes,
}

impl Listable for MovementTypeConfigHeader {
    open spec fn spec_list() -> Seq<Self> {
        seq![Self::Name, Self::SubTypes]
    }

    open spec fn spec_name(self) -> Seq<char> {
        match self {
            Self::Name => "Name"@,
            Self::SubTypes => "SubTypes"@,
        }
    }

    open spec fn spec_kind_name() -> Seq<char> {
        "MovementTypeConfigHeader"@
    }

    fn list() -> (r: Vec<Self>) {
        vec![Self::Name, Self::SubTypes]
    }

    fn name(&self) -> (r: &'static str) {
        match self {
            Self::Name => "Name",
            Self::SubTypes => "SubTypes",
        }
    }

    fn kind_name() -> (r: &'static str) {
        "MovementTypeConfigHeader"
    }
}

impl FromConfig for MovementTypeConfigHeader {
    open spec fn spec_from_conf(s: Seq<char>, names: LoaderNames) -> Result<(Self, Seq<char>), ConfigError> {
        spec_listed_from_conf::<Self>(s)
    }

    fn from_conf<'a>(s: &'a [char], loader: &FileLoader) -> (r: Result<(Self, &'a [char]), ConfigParseError>) {
        listed_from_conf(s)
    }
}

impl TableHeader for MovementTypeConfigHeader {
    open spec fn spec_takes_custom() -> bool {
        false
    }

    fn takes_custom() -> (b: bool) {
        false
    }

    open spec fn spec_column(self) -> nat {
        match self {
            Self::Name => 0,
            Self::SubTypes => 1,
        }
    }

    open spec fn spec_count() -> nat {
        2
    }

    fn column(self) -> (r: usize) {
        match self {
            Self::Name => 0,
            Self::SubTypes => 1,
        }
    }

    fn count() -> (r: usize) {
        2
    }
}

impl TableLine for MovementTypeConfig {
    type Header = MovementTypeConfigHeader;

    /// The name is the trimmed `Name` cell; a name that is known already is
    /// `DuplicateEntry`, a new one becomes the loader's next movement type.
    /// Then the `SubTypes` list (empty by default), read with the names
    /// known so far, so a sub type is named on its own line or an earlier
    /// one.
    open spec fn spec_parse(row: Seq<Option<Seq<char>>>, custom: Seq<(Seq<char>, Seq<char>)>, names: LoaderNames) -> (Result<MovementTypeConfigView, ConfigError>, LoaderNames) {
        match cell(row, 0) {
            None => (Err(ConfigError::MissingColumn(0)), names),
            Some(id) => {
                let name = spec_trim(id);
                if first_named(names.movement_types, name) is Some {
                    (Err(ConfigError::DuplicateEntry("MovementType"@ + "::"@ + name)), names)
                } else {
                    let n = spec_add_names(names, NameKind::MovementType, seq![name]);
                    (match spec_parse_vec_cell::<MovementType>(row, 1, Some(seq![]), n) {
                        Err(e) => Err(e),
                        Ok(sub_types) => Ok(MovementTypeConfigView { name, sub_types }),
                    }, n)
                }
            },
        }
    }

    open spec fn spec_validation(line: MovementTypeConfigView) -> Result<(), ConfigError> {
        Ok(())
    }

    fn parse(row: &TableRow, loader: &mut FileLoader) -> (r: Result<Self, ConfigParseError>) {
        let id = match row.get(0) {
            None => return Err(ConfigParseError::MissingColumn(0)),
            Some(id) => trim(id),
        };
        if position_of(loader.movement_types_names(), id).is_some() {
            proof {
                reveal_strlit("MovementType");
                reveal_strlit("::");
                reveal_strlit("MovementType::");
                reveal_strlit("");
            }
            let m = framed_text("MovementType::", id, "");
            assert(m@ =~= "MovementType"@ + "::"@ + id@);
            return Err(ConfigParseError::DuplicateEntry(m));
        }
        let name = to_string(id);
        let added = vec![name.clone()];
        assert(crate::config::file_loader::strings_view(added@) =~= seq![id@]);
        loader.add_names(NameKind::MovementType, &added);
        let sub_types = match parse_vec_def::<MovementType>(row, 1, Vec::new(), loader) {
            Err(e) => return Err(e),
            Ok(v) => v,
        };
        Ok(MovementTypeConfig { name, sub_types })
    }

    fn simple_validation(&self) -> (r: Result<(), ConfigParseError>) {
        Ok(())
    }
}

proof fn lemma_no_ballast_allows_all<D: Direction>(steps: Seq<PathStep<D>>)
    ensures
        allowed_steps(steps, Seq::<TBallast<D>>::empty()) == steps,
    decreases steps.len(),
{
    if steps.len() > 0 {
        lemma_no_ballast_allows_all(steps.drop_last());
        assert(steps.drop_last().push(steps.last()) =~= steps);
    }
}

proof fn lemma_knight_pattern_steps<D: Direction>(extra: ExtraMovementOptions, dirs: Seq<D>)
    ensures
        pattern_steps(MovementPattern::Knight, extra, dirs).len() == 2 * dirs.len(),
        forall|i: int| 0 <= i < dirs.len() ==> {
            &&& #[trigger] pattern_steps(MovementPattern::Knight, extra, dirs)[2 * i] == PathStep::Knight(dirs[i], true)
            &&& pattern_steps(MovementPattern::Knight, extra, dirs)[2 * i + 1] == PathStep::Knight(dirs[i], false)
        },
    decreases dirs.len(),
{
    if dirs.len() > 0 {
        let init = dirs.drop_last();
        lemma_knight_pattern_steps(extra, init);
        let p = pattern_steps(MovementPattern::Knight, extra, dirs);
        let q = pattern_steps(MovementPattern::Knight, extra, init);
        assert(p == q + seq![PathStep::Knight(dirs.last(), true), PathStep::Knight(dirs.last(), false)]);
        assert forall|i: int| 0 <= i < dirs.len() implies {
            &&& #[trigger] p[2 * i] == PathStep::Knight(dirs[i], true)
            &&& p[2 * i + 1] == PathStep::Knight(dirs[i], false)
        } by {
            if i < dirs.len() - 1 {
                assert(init[i] == dirs[i]);
                assert(q[2 * i] == PathStep::Knight(init[i], true));
            }
        }
    }
}

/// A knight with nothing in its temporary ballast may jump in every
/// direction, turning left and turning right: two steps per direction, in
/// the order of the directions, left first.
pub proof fn lemma_knight_jumps_everywhere<D: Direction>(step_id: nat, extra: ExtraMovementOptions)
    ensures
        spec_find_steps::<D>(MovementPattern::Knight, step_id, Seq::empty(), extra).len() == 2 * D::spec_count(),
        forall|i: int| 0 <= i < D::spec_count() ==> {
            &&& #[trigger] spec_find_steps::<D>(MovementPattern::Knight, step_id, Seq::empty(), extra)[2 * i]
                == PathStep::Knight(D::from_index(i), true)
            &&& spec_find_steps::<D>(MovementPattern::Knight, step_id, Seq::empty(), extra)[2 * i + 1]
                == PathStep::Knight(D::from_index(i), false)
        },
        forall|d: D| #[trigger] spec_find_steps::<D>(MovementPattern::Knight, step_id, Seq::empty(), extra).contains(PathStep::Knight(d, true)),
        forall|d: D| #[trigger] spec_find_steps::<D>(MovementPattern::Knight, step_id, Seq::empty(), extra).contains(PathStep::Knight(d, false)),
{
    let dirs = all_directions::<D>();
    lemma_knight_pattern_steps(extra, dirs);
    lemma_no_ballast_allows_all(pattern_steps(MovementPattern::Knight, extra, dirs));
    let r = spec_find_steps::<D>(MovementPattern::Knight, step_id, Seq::empty(), extra);
    assert(r == pattern_steps(MovementPattern::Knight, extra, dirs));
    D::lemma_numbering();
    assert forall|d: D| #[trigger] r.contains(PathStep::Knight(d, true)) by {
        let i = d.index() as int;
        assert(dirs[i] == d);
        assert(r[2 * i] == PathStep::Knight(d, true));
    }
    assert forall|d: D| #[trigger] r.contains(PathStep::Knight(d, false)) by {
        let i = d.index() as int;
        assert(dirs[i] == d);
        assert(r[2 * i] == PathStep::Knight(d, true));
        assert(r[2 * i + 1] == PathStep::Knight(d, false));
    }
}

proof fn lemma_push_contains<T>(v: Seq<T>, x: T)
    ensures
        forall|s: T| #[trigger] v.push(x).contains(s) <==> v.contains(s) || s == x,
{
    assert forall|s: T| #[trigger] v.push(x).contains(s) <==> v.contains(s) || s == x by {
        if v.push(x).contains(s) {
            let k = choose|k: int| 0 <= k < v.push(x).len() && v.push(x)[k] == s;
            if k < v.len() {
                assert(v[k] == s);
            }
        }
        if v.contains(s) {
            let k = choose|k: int| 0 <= k < v.len() && v[k] == s;
            assert(v.push(x)[k] == s);
        }
        if s == x {
            assert(v.push(x)[v.len() as int] == s);
        }
    }
}

proof fn lemma_allowed_members<D: Direction>(steps: Seq<PathStep<D>>, ballast: Seq<TBallast<D>>)
    ensures
        forall|s: PathStep<D>| #[trigger] allowed_steps(steps, ballast).contains(s) <==> steps.contains(s) && step_allowed(ballast, s),
    decreases steps.len(),
{
    if steps.len() > 0 {
        let init = steps.drop_last();
        lemma_allowed_members(init, ballast);
        assert(steps == init.push(steps.last()));
        lemma_push_contains(init, steps.last());
        lemma_push_contains(allowed_steps(init, ballast), steps.last());
    }
}

proof fn lemma_pattern_members<D: Direction>(p: MovementPattern, extra: ExtraMovementOptions, dirs: Seq<D>)
    ensures
        forall|s: PathStep<D>| #[trigger] pattern_steps(p, extra, dirs).contains(s)
            <==> exists|i: int| 0 <= i < dirs.len() && #[trigger] steps_toward(p, extra, dirs[i]).contains(s),
    decreases dirs.len(),
{
    if dirs.len() > 0 {
        let init = dirs.drop_last();
        lemma_pattern_members(p, extra, init);
        let a = pattern_steps(p, extra, init);
        let b = steps_toward(p, extra, dirs.last());
        assert(pattern_steps(p, extra, dirs) == a + b);
        assert forall|s: PathStep<D>| #[trigger] pattern_steps(p, extra, dirs).contains(s)
            <==> exists|i: int| 0 <= i < dirs.len() && #[trigger] steps_toward(p, extra, dirs[i]).contains(s) by {
            if (a + b).contains(s) {
                let k = choose|k: int| 0 <= k < (a + b).len() && (a + b)[k] == s;
                if k < a.len() {
                    assert(a[k] == s);
                    assert(a.contains(s));
                    let i = choose|i: int| 0 <= i < init.len() && #[trigger] steps_toward(p, extra, init[i]).contains(s);
                    assert(init[i] == dirs[i]);
                    assert(steps_toward(p, extra, dirs[i]).contains(s));
                } else {
                    assert(b[k - a.len()] == s);
                    assert(b.contains(s));
                    assert(steps_toward(p, extra, dirs[dirs.len() - 1]).contains(s));
                }
            }
            if exists|i: int| 0 <= i < dirs.len() && #[trigger] steps_toward(p, extra, dirs[i]).contains(s) {
                let i = choose|i: int| 0 <= i < dirs.len() && #[trigger] steps_toward(p, extra, dirs[i]).contains(s);
                let t = steps_toward(p, extra, dirs[i]);
                let k = choose|k: int| 0 <= k < t.len() && t[k] == s;
                if i < dirs.len() - 1 {
                    assert(init[i] == dirs[i]);
                    assert(a.contains(s));
                    let m = choose|m: int| 0 <= m < a.len() && a[m] == s;
                    assert((a + b)[m] == s);
                } else {
                    assert((a + b)[a.len() + k] == s);
                }
            }
        }
    }
}

/// Whether a pattern makes straight steps.
pub open spec fn steps_straight(p: MovementPattern) -> bool {
    p == MovementPattern::Standard || p == MovementPattern::StandardLoopLess || p == MovementPattern::Straight || p == MovementPattern::Rays
}

/// The steps a pattern other than the pawn's offers before the ballast is
/// looked at, by kind.
proof fn lemma_candidates<D: Direction>(p: MovementPattern, extra: ExtraMovementOptions)
    requires
        p != MovementPattern::Pawn,
    ensures
        forall|s: PathStep<D>| #[trigger] pattern_steps(p, extra, all_directions::<D>()).contains(s) <==> match s {
            PathStep::Dir(_) => steps_straight(p),
            PathStep::Jump(_) => steps_straight(p) && extra == ExtraMovementOptions::Jump,
            PathStep::Diagonal(_) => p == MovementPattern::Diagonal || p == MovementPattern::Rays,
            PathStep::Knight(_, _) => p == MovementPattern::Knight,
        },
{
    D::lemma_numbering();
    let dirs = all_directions::<D>();
    let cands = pattern_steps(p, extra, dirs);
    lemma_pattern_members(p, extra, dirs);
    assert forall|s: PathStep<D>| #[trigger] cands.contains(s) <==> match s {
        PathStep::Dir(_) => steps_straight(p),
        PathStep::Jump(_) => steps_straight(p) && extra == ExtraMovementOptions::Jump,
        PathStep::Diagonal(_) => p == MovementPattern::Diagonal || p == MovementPattern::Rays,
        PathStep::Knight(_, _) => p == MovementPattern::Knight,
    } by {
        let x = match s {
            PathStep::Dir(d) => d,
            PathStep::Jump(d) => d,
            PathStep::Diagonal(d) => d,
            PathStep::Knight(d, _) => d,
        };
        assert(dirs[x.index() as int] == x);
        if cands.contains(s) {
            let i = choose|i: int| 0 <= i < dirs.len() && #[trigger] steps_toward(p, extra, dirs[i]).contains(s);
            let t = steps_toward(p, extra, dirs[i]);
            let k = choose|k: int| 0 <= k < t.len() && t[k] == s;
        } else {
            let t = steps_toward(p, extra, dirs[x.index() as int]);
            match s {
                PathStep::Dir(_) => if steps_straight(p) { assert(t[0] == s); assert(t.contains(s)); },
                PathStep::Jump(_) => if steps_straight(p) && extra == ExtraMovementOptions::Jump { assert(t[1] == s); assert(t.contains(s)); },
                PathStep::Diagonal(_) => if p == MovementPattern::Diagonal { assert(t[0] == s); assert(t.contains(s)); } else if p == MovementPattern::Rays {
                    assert(t[t.len() - 1] == s);
                    assert(t.contains(s));
                },
                PathStep::Knight(_, left) => if p == MovementPattern::Knight {
                    if left { assert(t[0] == s); } else { assert(t[1] == s); }
                    assert(t.contains(s));
                },
            }
        }
    }
}

proof fn lemma_one_entry_allows<D: Direction>(t: TBallast<D>)
    ensures
        forall|s: PathStep<D>| #[trigger] step_allowed(seq![t], s) <==> ballast_allows(t, s),
{
    assert forall|s: PathStep<D>| #[trigger] step_allowed(seq![t], s) <==> ballast_allows(t, s) by {
        if ballast_allows(t, s) {
            assert forall|k: int| 0 <= k < seq![t].len() implies ballast_allows(#[trigger] seq![t][k], s) by {}
        } else {
            assert(!ballast_allows(seq![t][0], s));
        }
    }
}

proof fn lemma_pattern_len<D: Direction>(p: MovementPattern, extra: ExtraMovementOptions, dirs: Seq<D>, k: nat)
    requires
        forall|d: D| #[trigger] steps_toward(p, extra, d).len() == k,
    ensures
        pattern_steps(p, extra, dirs).len() == k * dirs.len(),
    decreases dirs.len(),
{
    if dirs.len() > 0 {
        lemma_pattern_len(p, extra, dirs.drop_last(), k);
        assert(steps_toward(p, extra, dirs.last()).len() == k);
        let m = dirs.len() as int;
        assert(k * (m - 1) + k == k * m) by (nonlinear_arith);
    }
}

/// With no ballast, a pattern other than the pawn's offers its kind of
/// step in every direction and nothing else: straight steps for the
/// standard, straight and ray patterns (each followed by a jump where the
/// terrain allows jumps), diagonal steps for the diagonal and ray patterns,
/// knight jumps for the knight, and nothing without movement.
pub proof fn lemma_steps_without_ballast<D: Direction>(p: MovementPattern, step_id: nat, extra: ExtraMovementOptions)
    requires
        p != MovementPattern::Pawn,
    ensures
        forall|d: D| #[trigger] spec_find_steps::<D>(p, step_id, Seq::empty(), extra).contains(PathStep::Dir(d)) <==> steps_straight(p),
        forall|d: D| #[trigger] spec_find_steps::<D>(p, step_id, Seq::empty(), extra).contains(PathStep::Jump(d))
            <==> steps_straight(p) && extra == ExtraMovementOptions::Jump,
        forall|d: D| #[trigger] spec_find_steps::<D>(p, step_id, Seq::empty(), extra).contains(PathStep::Diagonal(d))
            <==> (p == MovementPattern::Diagonal || p == MovementPattern::Rays),
        forall|d: D, left: bool| #[trigger] spec_find_steps::<D>(p, step_id, Seq::empty(), extra).contains(PathStep::Knight(d, left))
            <==> p == MovementPattern::Knight,
        spec_find_steps::<D>(p, step_id, Seq::empty(), extra).len() == D::spec_count() * (match p {
            MovementPattern::Standard | MovementPattern::StandardLoopLess | MovementPattern::Straight =>
                if extra == ExtraMovementOptions::Jump { 2nat } else { 1nat },
            MovementPattern::Diagonal => 1nat,
            MovementPattern::Rays => if extra == ExtraMovementOptions::Jump { 3nat } else { 2nat },
            MovementPattern::Knight => 2nat,
            _ => 0nat,
        }),
{
    let cands = pattern_steps(p, extra, all_directions::<D>());
    lemma_candidates::<D>(p, extra);
    lemma_no_ballast_allows_all(cands);
    let k: nat = match p {
        MovementPattern::Standard | MovementPattern::StandardLoopLess | MovementPattern::Straight =>
            if extra == ExtraMovementOptions::Jump { 2nat } else { 1nat },
        MovementPattern::Diagonal => 1nat,
        MovementPattern::Rays => if extra == ExtraMovementOptions::Jump { 3nat } else { 2nat },
        MovementPattern::Knight => 2nat,
        _ => 0nat,
    };
    lemma_pattern_len::<D>(p, extra, all_directions::<D>(), k);
    assert(k * D::spec_count() == D::spec_count() * k) by (nonlinear_arith);
}

/// A ballast entry that forbids a direction takes away the straight step in
/// that direction and nothing else.
pub proof fn lemma_steps_forbidden_direction<D: Direction>(p: MovementPattern, step_id: nat, extra: ExtraMovementOptions, f: D)
    requires
        p != MovementPattern::Pawn,
    ensures
        forall|d: D| #[trigger] spec_find_steps::<D>(p, step_id, seq![TBallast::ForbiddenDirection(Some(f))], extra).contains(PathStep::Dir(d))
            <==> steps_straight(p) && d.index() != f.index(),
        forall|d: D| #[trigger] spec_find_steps::<D>(p, step_id, seq![TBallast::ForbiddenDirection(Some(f))], extra).contains(PathStep::Jump(d))
            <==> steps_straight(p) && extra == ExtraMovementOptions::Jump,
        forall|d: D| #[trigger] spec_find_steps::<D>(p, step_id, seq![TBallast::ForbiddenDirection(Some(f))], extra).contains(PathStep::Diagonal(d))
            <==> (p == MovementPattern::Diagonal || p == MovementPattern::Rays),
        forall|d: D, left: bool| #[trigger] spec_find_steps::<D>(p, step_id, seq![TBallast::ForbiddenDirection(Some(f))], extra).contains(PathStep::Knight(d, left))
            <==> p == MovementPattern::Knight,
{
    let b = seq![TBallast::ForbiddenDirection(Some(f))];
    let cands = pattern_steps(p, extra, all_directions::<D>());
    lemma_candidates::<D>(p, extra);
    lemma_allowed_members(cands, b);
    lemma_one_entry_allows(TBallast::ForbiddenDirection(Some(f)));
}

/// A ballast entry that fixes a direction leaves only the straight step in
/// that direction, for the patterns that make straight steps.
pub proof fn lemma_steps_fixed_direction<D: Direction>(p: MovementPattern, step_id: nat, extra: ExtraMovementOptions, f: D)
    requires
        p != MovementPattern::Pawn,
    ensures
        forall|s: PathStep<D>| #[trigger] spec_find_steps::<D>(p, step_id, seq![TBallast::Direction(Some(f))], extra).contains(s)
            <==> steps_straight(p) && s == PathStep::Dir(f),
{
    D::lemma_numbering();
    let b = seq![TBallast::Direction(Some(f))];
    let cands = pattern_steps(p, extra, all_directions::<D>());
    lemma_candidates::<D>(p, extra);
    lemma_allowed_members(cands, b);
    lemma_one_entry_allows(TBallast::Direction(Some(f)));
    let r = spec_find_steps::<D>(p, step_id, b, extra);
    assert forall|s: PathStep<D>| #[trigger] r.contains(s) <==> steps_straight(p) && s == PathStep::Dir(f) by {
        if let PathStep::Dir(x) = s {
            assert(D::from_index(x.index() as int) == x);
            assert(D::from_index(f.index() as int) == f);
        }
    }
}

/// A ballast entry that fixes a diagonal leaves only the diagonal step
/// along it, for the patterns that make diagonal steps.
pub proof fn lemma_steps_fixed_diagonal<D: Direction>(p: MovementPattern, step_id: nat, extra: ExtraMovementOptions, f: D)
    requires
        p != MovementPattern::Pawn,
    ensures
        forall|s: PathStep<D>| #[trigger] spec_find_steps::<D>(p, step_id, seq![TBallast::DiagonalDirection(Some(f))], extra).contains(s)
            <==> (p == MovementPattern::Diagonal || p == MovementPattern::Rays) && s == PathStep::Diagonal(f),
{
    D::lemma_numbering();
    let b = seq![TBallast::DiagonalDirection(Some(f))];
    let cands = pattern_steps(p, extra, all_directions::<D>());
    lemma_candidates::<D>(p, extra);
    lemma_allowed_members(cands, b);
    lemma_one_entry_allows(TBallast::DiagonalDirection(Some(f)));
    let r = spec_find_steps::<D>(p, step_id, b, extra);
    assert forall|s: PathStep<D>| #[trigger] r.contains(s) <==> (p == MovementPattern::Diagonal || p == MovementPattern::Rays) && s == PathStep::Diagonal(f) by {
        if let PathStep::Diagonal(x) = s {
            assert(D::from_index(x.index() as int) == x);
            assert(D::from_index(f.index() as int) == f);
        }
    }
}

proof fn lemma_free_pawn_members<D: Direction>(step_id: nat, dirs: Seq<D>)
    ensures
        free_pawn_steps(step_id, dirs).len() == (if step_id == 0 { 2 * dirs.len() } else { dirs.len() }),
        forall|s: PathStep<D>| #[trigger] free_pawn_steps(step_id, dirs).contains(s)
            <==> exists|i: int| 0 <= i < dirs.len() && #[trigger] pawn_steps_toward(step_id, dirs[i]).contains(s),
    decreases dirs.len(),
{
    if dirs.len() > 0 {
        let init = dirs.drop_last();
        lemma_free_pawn_members(step_id, init);
        let a = free_pawn_steps(step_id, init);
        let b = pawn_steps_toward(step_id, dirs.last());
        assert(free_pawn_steps(step_id, dirs) == a + b);
        assert forall|s: PathStep<D>| #[trigger] free_pawn_steps(step_id, dirs).contains(s)
            <==> exists|i: int| 0 <= i < dirs.len() && #[trigger] pawn_steps_toward(step_id, dirs[i]).contains(s) by {
            if (a + b).contains(s) {
                let k = choose|k: int| 0 <= k < (a + b).len() && (a + b)[k] == s;
                if k < a.len() {
                    assert(a[k] == s);
                    assert(a.contains(s));
                    let i = choose|i: int| 0 <= i < init.len() && #[trigger] pawn_steps_toward(step_id, init[i]).contains(s);
                    assert(init[i] == dirs[i]);
                    assert(pawn_steps_toward(step_id, dirs[i]).contains(s));
                } else {
                    assert(b[k - a.len()] == s);
                    assert(b.contains(s));
                    assert(pawn_steps_toward(step_id, dirs[dirs.len() - 1]).contains(s));
                }
            }
            if exists|i: int| 0 <= i < dirs.len() && #[trigger] pawn_steps_toward(step_id, dirs[i]).contains(s) {
                let i = choose|i: int| 0 <= i < dirs.len() && #[trigger] pawn_steps_toward(step_id, dirs[i]).contains(s);
                let t = pawn_steps_toward(step_id, dirs[i]);
                let k = choose|k: int| 0 <= k < t.len() && t[k] == s;
                if i < dirs.len() - 1 {
                    assert(init[i] == dirs[i]);
                    assert(a.contains(s));
                    let m = choose|m: int| 0 <= m < a.len() && a[m] == s;
                    assert((a + b)[m] == s);
                } else {
                    assert((a + b)[a.len() + k] == s);
                }
            }
        }
    }
}

/// A pawn whose ballast begins with a fixed direction `f` steps straight
/// along `f`; as its first step it may also step diagonally forward, along
/// `f` and along the diagonal one turn clockwise of it.
pub proof fn lemma_pawn_with_direction<D: Direction>(step_id: nat, f: D, rest: Seq<TBallast<D>>, extra: ExtraMovementOptions)
    ensures
        step_id == 0 ==> {
            let r = spec_find_steps::<D>(MovementPattern::Pawn, step_id, seq![TBallast::Direction(Some(f))] + rest, extra);
            &&& r.len() == 3
            &&& r[0] == PathStep::Dir(f)
            &&& r[1] == PathStep::Diagonal(f)
            &&& r[2] is Diagonal
            &&& (r[2]->Diagonal_0.index() + 1 == f.index() || (f.index() == 0 && r[2]->Diagonal_0.index() == D::spec_count() - 1))
        },
        step_id > 0 ==> spec_find_steps::<D>(MovementPattern::Pawn, step_id, seq![TBallast::Direction(Some(f))] + rest, extra)
            == seq![PathStep::Dir(f)],
{
    D::lemma_numbering();
    let b = seq![TBallast::Direction(Some(f))] + rest;
    assert(b[0] == TBallast::Direction(Some(f)));
    if step_id == 0 {
        let g = D::from_index(f.index() - 1);
        crate::direction::lemma_index_add_wrap(f.index() - 1, 0, D::spec_count());
        assert(g.index() == index_add(f.index() - 1, 0, D::spec_count()));
    }
}

/// A pawn without a fixed direction steps straight in every direction and,
/// as its first step only, diagonally in every direction; it never jumps.
pub proof fn lemma_pawn_free<D: Direction>(step_id: nat, ballast: Seq<TBallast<D>>, extra: ExtraMovementOptions)
    requires
        !(ballast.len() > 0 && ballast[0] is Direction && ballast[0]->Direction_0 is Some),
    ensures
        spec_find_steps::<D>(MovementPattern::Pawn, step_id, ballast, extra).len()
            == (if step_id == 0 { 2 * D::spec_count() } else { D::spec_count() }),
        forall|d: D| #[trigger] spec_find_steps::<D>(MovementPattern::Pawn, step_id, ballast, extra).contains(PathStep::Dir(d)),
        forall|d: D| #[trigger] spec_find_steps::<D>(MovementPattern::Pawn, step_id, ballast, extra).contains(PathStep::Diagonal(d))
            <==> step_id == 0,
        forall|d: D| !(#[trigger] spec_find_steps::<D>(MovementPattern::Pawn, step_id, ballast, extra).contains(PathStep::Jump(d))),
        forall|d: D, left: bool| !(#[trigger] spec_find_steps::<D>(MovementPattern::Pawn, step_id, ballast, extra).contains(PathStep::Knight(d, left))),
{
    D::lemma_numbering();
    let dirs = all_directions::<D>();
    lemma_free_pawn_members(step_id, dirs);
    let r = spec_find_steps::<D>(MovementPattern::Pawn, step_id, ballast, extra);
    assert(r == free_pawn_steps(step_id, dirs));
    assert forall|d: D| #[trigger] r.contains(PathStep::Dir(d)) by {
        assert(dirs[d.index() as int] == d);
        let t = pawn_steps_toward(step_id, dirs[d.index() as int]);
        assert(t[0] == PathStep::Dir(d));
        assert(t.contains(PathStep::Dir(d)));
    }
    assert forall|d: D| #[trigger] r.contains(PathStep::Diagonal(d)) <==> step_id == 0 by {
        assert(dirs[d.index() as int] == d);
        let t = pawn_steps_toward(step_id, dirs[d.index() as int]);
        if step_id == 0 {
            assert(t[1] == PathStep::Diagonal(d));
            assert(t.contains(PathStep::Diagonal(d)));
        } else if r.contains(PathStep::Diagonal(d)) {
            let i = choose|i: int| 0 <= i < dirs.len() && #[trigger] pawn_steps_toward(step_id, dirs[i]).contains(PathStep::Diagonal(d));
            let u = pawn_steps_toward(step_id, dirs[i]);
            let k = choose|k: int| 0 <= k < u.len() && u[k] == PathStep::Diagonal(d);
        }
    }
    assert forall|d: D| !(#[trigger] r.contains(PathStep::Jump(d))) by {
        if r.contains(PathStep::Jump(d)) {
            let i = choose|i: int| 0 <= i < dirs.len() && #[trigger] pawn_steps_toward(step_id, dirs[i]).contains(PathStep::Jump(d));
            let u = pawn_steps_toward(step_id, dirs[i]);
            let k = choose|k: int| 0 <= k < u.len() && u[k] == PathStep::Jump(d);
        }
    }
    assert forall|d: D, left: bool| !(#[trigger] r.contains(PathStep::Knight(d, left))) by {
        if r.contains(PathStep::Knight(d, left)) {
            let i = choose|i: int| 0 <= i < dirs.len() && #[trigger] pawn_steps_toward(step_id, dirs[i]).contains(PathStep::Knight(d, left));
            let u = pawn_steps_toward(step_id, dirs[i]);
            let k = choose|k: int| 0 <= k < u.len() && u[k] == PathStep::Knight(d, left);
        }
    }
}

} // verus!
