use vstd::prelude::*;

use crate::direction::{index_add, Direction, Distortion};
use crate::fog::FogIntensity;
use crate::player::{ClientPerspective, Owner};
use crate::point::Point;
use crate::terrain::TerrainType;
use crate::units::{Attribute, AttributeKey, UnitType};

verus! {

/// Most details that one field can hold.
pub const MAX_STACK_SIZE: u32 = 31;

#[derive(Debug, Clone, Copy, PartialEq, Eq, Structural, Hash)]
pub enum DetailType {
    Pipe,
    Coins1,
    Coins2,
    Coins3,
    Bubble,
    Skull,
    SludgeToken,
}

impl DetailType {
    /// All detail types in declaration order.
    pub fn list() -> (v: Vec<DetailType>)
        ensures
            v@ == seq![
                DetailType::Pipe,
                DetailType::Coins1,
                DetailType::Coins2,
                DetailType::Coins3,
                DetailType::Bubble,
                DetailType::Skull,
                DetailType::SludgeToken,
            ],
    {
        vec![
            DetailType::Pipe,
            DetailType::Coins1,
            DetailType::Coins2,
            DetailType::Coins3,
            DetailType::Bubble,
            DetailType::Skull,
            DetailType::SludgeToken,
        ]
    }
}

/// A pipe segment that connects two sides of a field. An end is open while
/// no matching pipe continues on the neighboring field.
#[derive(Debug, Clone, Copy, PartialEq, Eq)]
pub struct PipeState<D> {
    directions: [D; 2],
    ends: [bool; 2],
}

impl<D: Direction> PipeState<D> {
    /// Direction of end `i` (0 or 1).
    pub closed spec fn dir(self, i: int) -> D {
        self.directions[i]
    }

    /// Whether end `i` (0 or 1) is open.
    pub closed spec fn end(self, i: int) -> bool {
        self.ends[i]
    }

    /// The end that is entered when moving in direction index `entry`:
    /// the end that points back against the movement.
    pub open spec fn entry_end(self, entry: nat) -> Option<int> {
        let back = index_add(entry as int, (D::spec_count() / 2) as int, D::spec_count());
        if self.dir(0).index() == back {
            Some(0int)
        } else if self.dir(1).index() == back {
            Some(1int)
        } else {
            None
        }
    }

    /// Rotation index that turns direction index `entry` into the direction
    /// of the other end of this pipe.
    pub open spec fn exit_rotation(self, entry: nat, i: int) -> nat {
        index_add(self.dir(1 - i).index() as int, -entry, D::spec_count())
    }

    pub fn new(d1: D, d2: D) -> (r: Option<Self>)
        ensures
            r is None <==> d1.index() == d2.index(),
            r matches Some(p) ==> p.dir(0) == d1 && p.dir(1) == d2 && p.end(0) && p.end(1),
    {
        if d1.is_same(&d2) {
            return None;
        }
        Some(PipeState { directions: [d1, d2], ends: [true, true] })
    }

    /// The pipe's two directions, each with whether that end is open.
    pub fn directions(&self) -> (r: [(D, bool); 2])
        ensures
            r[0] == (self.dir(0), self.end(0)),
            r[1] == (self.dir(1), self.end(1)),
    {
        [(self.directions[0], self.ends[0]), (self.directions[1], self.ends[1])]
    }

    /// If moving in direction `entry` leads into this pipe, the distortion
    /// that the movement picks up, and None otherwise.
    pub fn distortion(&self, entry: D) -> (r: Option<Distortion<D>>)
        ensures
            r is None <==> self.entry_end(entry.index()) is None,
            r matches Some(dist) ==> {
                &&& !dist.spec_mirrored()
                &&& dist.spec_rotation().index() == self.exit_rotation(
                    entry.index(),
                    self.entry_end(entry.index())->0,
                )
            },
    {
        proof {
            D::lemma_numbering();
        }
        let back = entry.opposite_direction();
        let mut i: usize = 0;
        while i < 2
            invariant
                i <= 2,
                back.index() == index_add(entry.index() as int, (D::spec_count() / 2) as int, D::spec_count()),
                forall|j: int| 0 <= j < i ==> self.dir(j).index() != back.index(),
            decreases 2 - i,
        {
            proof {
                D::lemma_numbering();
            }
            if self.directions[i].is_same(&back) {
                let rotation = self.directions[1 - i].rotate_by(back.opposite_direction().mirror_vertically());
                proof {
                    crate::direction::lemma_opposite_twice::<D>(entry.index());
                    let n = D::spec_count();
                    let exit = self.dir(1 - i as int).index() as int;
                    crate::direction::lemma_index_add_assoc(exit, n as int, -entry.index(), n);
                    vstd::arithmetic::div_mod::lemma_mod_add_multiples_vanish(exit - entry.index(), n as int);
                    assert(exit + (n - entry.index()) == n + (exit - entry.index()));
                    assert(rotation.index() == self.exit_rotation(entry.index(), i as int));
                }
                return Some(Distortion::new(false, rotation));
            }
            i += 1;
        }
        None
    }

    /// Whether the end pointing in direction `d` exists and is open.
    pub fn is_open(&self, d: D) -> (b: bool)
        ensures
            b == ((self.dir(0).index() == d.index() && self.end(0)) || (self.dir(0).index() != d.index()
                && self.dir(1).index() == d.index() && self.end(1))),
    {
        let mut i: usize = 0;
        while i < 2
            invariant
                i <= 2,
                forall|j: int| 0 <= j < i ==> self.dir(j).index() != d.index(),
            decreases 2 - i,
        {
            if d.is_same(&self.directions[i]) {
                return self.ends[i];
            }
            i += 1;
        }
        false
    }

    /// A straight pipe along `angle_0` with both ends open.
    pub fn default() -> (r: Self)
        ensures
            r.dir(0).index() == 0,
            r.dir(1).index() == D::spec_count() / 2,
            r.end(0) && r.end(1),
    {
        proof {
            D::lemma_numbering();
        }
        let d = D::angle_0();
        let o = d.opposite_direction();
        proof {
            crate::direction::lemma_index_add_wrap(0, (D::spec_count() / 2) as int, D::spec_count());
        }
        PipeState { directions: [d, o], ends: [true, true] }
    }
}


/// Sludge left behind on a field; it dries up after `counter` more rounds.
#[derive(Debug, Clone, Copy, PartialEq, Eq, Structural)]
pub struct SludgeToken {
    owner: Owner,
    counter: u8,
}

/// Position of the first player with owner id `owner`.
pub open spec fn player_position(players: Seq<i8>, owner: i8) -> Option<int>
    decreases players.len(),
{
    if players.len() == 0 {
        None
    } else if players[0] == owner {
        Some(0int)
    } else {
        match player_position(players.drop_first(), owner) {
            Some(i) => Some(i + 1),
            None => None,
        }
    }
}

/// The owner ids of the players, if the game has them set up.
pub open spec fn players_view(players: Option<&Vec<i8>>) -> Option<Seq<i8>> {
    match players {
        Some(ps) => Some(ps@),
        None => None,
    }
}

impl SludgeToken {
    pub closed spec fn spec_owner(self) -> i8 {
        self.owner.0
    }

    pub closed spec fn spec_counter(self) -> u8 {
        self.counter
    }

    /// Remaining turns of a token, given the owner ids of the players in
    /// turn order (None if the game has no players set up yet).
    pub open spec fn spec_remaining_turns(self, players: Option<Seq<i8>>) -> Option<int> {
        match players {
            None => None,
            Some(ps) => match player_position(ps, self.spec_owner()) {
                None => None,
                Some(i) => Some(i + ps.len() * self.spec_counter()),
            },
        }
    }

    /// A token whose counter is capped at `max_sludge`.
    pub fn new(max_sludge: u8, owner: i8, counter: u8) -> (r: Self)
        ensures
            r.spec_owner() == owner,
            r.spec_counter() == if counter < max_sludge { counter } else { max_sludge },
    {
        SludgeToken { owner: Owner(owner), counter: if counter < max_sludge { counter } else { max_sludge } }
    }

    /// Number of turns (over all players, in turn order) until the token
    /// disappears; None if the owner doesn't take part.
    pub fn remaining_turns(&self, players: Option<&Vec<i8>>) -> (r: Option<usize>)
        requires
            players matches Some(ps) ==> ps.len() * 256 <= usize::MAX,
        ensures
            r matches Some(v) ==> self.spec_remaining_turns(players_view(players)) == Some(v as int),
            r is None ==> self.spec_remaining_turns(players_view(players)) is None,
    {
        let ps = match players {
            None => return None,
            Some(ps) => ps,
        };
        let mut i: usize = 0;
        assert(ps@.skip(0) =~= ps@);
        while i < ps.len()
            invariant
                i <= ps.len(),
                ps.len() * 256 <= usize::MAX,
                players == Some(ps),
                player_position(ps@, self.owner.0) == match player_position(ps@.skip(i as int), self.owner.0) {
                    Some(j) => Some(j + i),
                    None => None,
                },
            decreases ps.len() - i,
        {
            assert(ps@.skip(i as int).drop_first() =~= ps@.skip(i + 1));
            if ps[i] == self.owner.0 {
                assert(player_position(ps@.skip(i as int), self.owner.0) == Some(0int));
                assert(player_position(ps@, self.owner.0) == Some(i as int));
                proof {
                    assert(ps.len() * self.counter <= ps.len() * 255) by (nonlinear_arith)
                        requires self.counter <= 255;
                }
                let r = i + ps.len() * self.counter as usize;
                assert(players_view(players) == Some(ps@));
                assert(r == i + ps@.len() * self.spec_counter());
                return Some(r);
            }
            i += 1;
        }
        assert(ps@.skip(i as int).len() == 0);
        None
    }

    pub fn get_owner_id(&self) -> (r: i8)
        ensures
            r == self.spec_owner(),
    {
        self.owner.0
    }

    pub fn get_counter(&self) -> (r: u8)
        ensures
            r == self.spec_counter(),
    {
        self.counter
    }
}

/// What the configuration says about one attribute of a unit type.
#[derive(Debug, Clone, Copy, PartialEq, Eq, Structural)]
pub struct AttributeKeyInfo {
    pub key: AttributeKey,
    /// whether a skull remembers this attribute of the dead unit
    pub is_skull_data: bool,
    /// value used when the unit doesn't hold the attribute
    pub default: Attribute,
}

/// The first attribute in `attributes` with the given key.
pub open spec fn attribute_lookup(attributes: Seq<Attribute>, key: AttributeKey) -> Option<Attribute>
    decreases attributes.len(),
{
    if attributes.len() == 0 {
        None
    } else if attributes[0].key == key {
        Some(attributes[0])
    } else {
        attribute_lookup(attributes.drop_first(), key)
    }
}

/// The attributes a skull keeps: for each skull key in order, the unit's
/// value or else the key's default.
pub open spec fn skull_attributes(unit_attributes: Seq<Attribute>, keys: Seq<AttributeKeyInfo>) -> Seq<Attribute>
    decreases keys.len(),
{
    if keys.len() == 0 {
        seq![]
    } else {
        let rest = skull_attributes(unit_attributes, keys.drop_last());
        let k = keys.last();
        if k.is_skull_data {
            rest.push(
                match attribute_lookup(unit_attributes, k.key) {
                    Some(a) => a,
                    None => k.default,
                },
            )
        } else {
            rest
        }
    }
}

/// Remains of a dead unit, from which it can be raised again.
#[derive(Debug, Clone, PartialEq, Eq)]
pub struct SkullData {
    owner: Owner,
    unit_type: UnitType,
    attributes: Vec<Attribute>,
}

impl SkullData {
    pub closed spec fn spec_owner(self) -> i8 {
        self.owner.0
    }

    pub closed spec fn spec_unit_type(self) -> UnitType {
        self.unit_type
    }

    pub closed spec fn spec_attributes(self) -> Seq<Attribute> {
        self.attributes@
    }

    fn lookup(attributes: &Vec<Attribute>, key: AttributeKey) -> (r: Option<Attribute>)
        ensures
            r == attribute_lookup(attributes@, key),
    {
        let mut i: usize = 0;
        assert(attributes@.skip(0) =~= attributes@);
        while i < attributes.len()
            invariant
                i <= attributes.len(),
                attribute_lookup(attributes@, key) == attribute_lookup(attributes@.skip(i as int), key),
            decreases attributes.len() - i,
        {
            assert(attributes@.skip(i as int).drop_first() =~= attributes@.skip(i + 1));
            if attributes[i].key == key {
                return Some(attributes[i]);
            }
            i += 1;
        }
        None
    }

    /// The skull of a unit of type `unit_type` that held `unit_attributes`;
    /// `keys` lists the attributes that its type has for this owner.
    pub fn new(unit_type: UnitType, unit_attributes: &Vec<Attribute>, keys: &Vec<AttributeKeyInfo>, owner: i8) -> (r: Self)
        ensures
            r.spec_owner() == owner,
            r.spec_unit_type() == unit_type,
            r.spec_attributes() == skull_attributes(unit_attributes@, keys@),
    {
        let mut attributes: Vec<Attribute> = Vec::new();
        let mut i: usize = 0;
        while i < keys.len()
            invariant
                i <= keys.len(),
                attributes@ == skull_attributes(unit_attributes@, keys@.take(i as int)),
            decreases keys.len() - i,
        {
            let k = keys[i];
            assert(keys@.take(i + 1).drop_last() =~= keys@.take(i as int));
            if k.is_skull_data {
                let a = match Self::lookup(unit_attributes, k.key) {
                    Some(a) => a,
                    None => k.default,
                };
                attributes.push(a);
            }
        i += 1;
        }
        assert(keys@.take(keys.len() as int) =~= keys@);
        SkullData { owner: Owner(owner), unit_type, attributes }
    }

    pub fn get_owner_id(&self) -> (r: i8)
        ensures
            r == self.spec_owner(),
    {
        self.owner.0
    }

    pub fn get_unit_type(&self) -> (r: UnitType)
        ensures
            r == self.spec_unit_type(),
    {
        self.unit_type
    }

    /// The attributes the raised unit gets back.
    pub fn get_attributes(&self) -> (r: &Vec<Attribute>)
        ensures
            r@ == self.spec_attributes(),
    {
        &self.attributes
    }

    /// Same owner, unit type and attributes.
    pub open spec fn same_as(self, other: Self) -> bool {
        &&& self.spec_owner() == other.spec_owner()
        &&& self.spec_unit_type() == other.spec_unit_type()
        &&& self.spec_attributes() == other.spec_attributes()
    }

    fn duplicate(&self) -> (r: Self)
        ensures
            r.same_as(*self),
    {
        let mut attributes: Vec<Attribute> = Vec::new();
        let mut i: usize = 0;
        while i < self.attributes.len()
            invariant
                i <= self.attributes.len(),
                attributes@ == self.attributes@.take(i as int),
            decreases self.attributes.len() - i,
        {
            attributes.push(self.attributes[i]);
            assert(self.attributes@.take(i + 1) =~= self.attributes@.take(i as int).push(self.attributes@[i as int]));
            i += 1;
        }
        assert(attributes@ =~= self.attributes@);
        SkullData { owner: self.owner, unit_type: self.unit_type, attributes }
    }
}


/// Something lying on a field besides terrain, units and tokens.
#[derive(Debug, Clone, PartialEq, Eq)]
pub enum Detail<D> {
    Pipe(PipeState<D>),
    Coins1,
    Coins2,
    Coins3,
    Bubble(Owner, TerrainType),
    Skull(SkullData),
    SludgeToken(SludgeToken),
}

/// The type of a detail.
pub open spec fn detail_type<D>(d: Detail<D>) -> DetailType {
    match d {
        Detail::Pipe(_) => DetailType::Pipe,
        Detail::Coins1 => DetailType::Coins1,
        Detail::Coins2 => DetailType::Coins2,
        Detail::Coins3 => DetailType::Coins3,
        Detail::Bubble(_, _) => DetailType::Bubble,
        Detail::Skull(_) => DetailType::Skull,
        Detail::SludgeToken(_) => DetailType::SludgeToken,
    }
}

/// Equal details, where skulls are compared by their contents.
pub open spec fn same_detail<D>(a: Detail<D>, b: Detail<D>) -> bool {
    match (a, b) {
        (Detail::Skull(x), Detail::Skull(y)) => x.same_as(y),
        _ => a == b,
    }
}

/// The scan over a field's details, from the newest to the oldest, keeps
/// `(bubble, coin, skull, pipe directions)`: whether a bubble, coins or a
/// skull has been kept, and the directions of all kept pipes.
pub type StackScan = (bool, bool, bool, Seq<nat>);

/// Remaining turns of a sludge token, 0 if unknown.
pub open spec fn sludge_turns(t: SludgeToken, players: Option<Seq<i8>>) -> int {
    match t.spec_remaining_turns(players) {
        Some(v) => v,
        None => 0,
    }
}

/// Largest remaining turn count among the sludge tokens of `details`, or 0.
pub open spec fn max_sludge_turns<D>(details: Seq<Detail<D>>, players: Option<Seq<i8>>) -> int
    decreases details.len(),
{
    if details.len() == 0 {
        0
    } else {
        let rest = max_sludge_turns(details.drop_last(), players);
        let here = match details.last() {
            Detail::SludgeToken(t) => sludge_turns(t, players),
            _ => 0,
        };
        if here > rest {
            here
        } else {
            rest
        }
    }
}

/// Whether the scan drops `d`, given what it kept so far.
pub open spec fn stack_drops<D: Direction>(
    st: StackScan,
    d: Detail<D>,
    can_build_base: Seq<bool>,
    max_sludge: int,
    players: Option<Seq<i8>>,
) -> bool {
    match d {
        Detail::Pipe(c) => st.0 || st.1 || st.2 || c.dir(0).index() == c.dir(1).index() || st.3.contains(
            c.dir(0).index(),
        ) || st.3.contains(c.dir(1).index()),
        Detail::Bubble(_, t) => st.0 || st.3.len() > 0 || !can_build_base[t.0 as int],
        Detail::Coins1 | Detail::Coins2 | Detail::Coins3 => st.1 || st.3.len() > 0,
        Detail::Skull(_) => st.2 || st.3.len() > 0,
        Detail::SludgeToken(t) => max_sludge != sludge_turns(t, players) || st.3.len() > 0,
    }
}

/// What the scan remembers after keeping `d`.
pub open spec fn stack_keep<D: Direction>(st: StackScan, d: Detail<D>) -> StackScan {
    match d {
        Detail::Pipe(c) => (st.0, st.1, st.2, st.3.push(c.dir(0).index()).push(c.dir(1).index())),
        Detail::Bubble(_, _) => (true, st.1, st.2, st.3),
        Detail::Coins1 | Detail::Coins2 | Detail::Coins3 => (st.0, true, st.2, st.3),
        Detail::Skull(_) => (st.0, st.1, true, st.3),
        Detail::SludgeToken(_) => st,
    }
}

/// The details of `items` that the scan keeps, in scan order.
pub open spec fn stack_scan<D: Direction>(
    items: Seq<Detail<D>>,
    st: StackScan,
    can_build_base: Seq<bool>,
    max_sludge: int,
    players: Option<Seq<i8>>,
) -> Seq<Detail<D>>
    decreases items.len(),
{
    if items.len() == 0 {
        seq![]
    } else if stack_drops(st, items[0], can_build_base, max_sludge, players) {
        stack_scan(items.drop_first(), st, can_build_base, max_sludge, players)
    } else {
        seq![items[0]] + stack_scan(
            items.drop_first(),
            stack_keep(st, items[0]),
            can_build_base,
            max_sludge,
            players,
        )
    }
}

/// The first `n` elements of `s`, or all of them if there are fewer.
pub open spec fn take_at_most<T>(s: Seq<T>, n: nat) -> Seq<T> {
    if s.len() <= n {
        s
    } else {
        s.take(n as int)
    }
}

/// The corrected stack of a field: scanning from the newest detail (the
/// last) to the oldest, every detail that conflicts with one kept before is
/// dropped, and at most `MAX_STACK_SIZE` details are kept, newest first.
pub open spec fn corrected_stack<D: Direction>(
    details: Seq<Detail<D>>,
    can_build_base: Seq<bool>,
    players: Option<Seq<i8>>,
) -> Seq<Detail<D>> {
    take_at_most(
        stack_scan(
            details.reverse(),
            (false, false, false, seq![]),
            can_build_base,
            max_sludge_turns(details, players),
            players,
        ),
        MAX_STACK_SIZE as nat,
    )
}

/// Bubbles on terrain that the configuration doesn't know would make the
/// configuration lookup fail.
pub open spec fn bubbles_on_known_terrain<D>(details: Seq<Detail<D>>, can_build_base: Seq<bool>) -> bool {
    forall|i: int| #![trigger details[i]]
        0 <= i < details.len() ==> (details[i] matches Detail::Bubble(_, t) ==> t.0 < can_build_base.len())
}

/// Whether `v` holds a direction with index `i`.
fn contains_direction<D: Direction>(v: &Vec<D>, d: D) -> (b: bool)
    ensures
        b == (exists|j: int| 0 <= j < v.len() && (#[trigger] v[j]).index() == d.index()),
{
    let mut i: usize = 0;
    while i < v.len()
        invariant
            i <= v.len(),
            forall|j: int| 0 <= j < i ==> (#[trigger] v[j]).index() != d.index(),
        decreases v.len() - i,
    {
        if v[i].is_same(&d) {
            return true;
        }
        i += 1;
    }
    false
}

impl<D: Direction> Detail<D> {
    pub fn typ(&self) -> (t: DetailType)
        ensures
            t == detail_type(*self),
    {
        match self {
            Detail::Pipe(_) => DetailType::Pipe,
            Detail::Coins1 => DetailType::Coins1,
            Detail::Coins2 => DetailType::Coins2,
            Detail::Coins3 => DetailType::Coins3,
            Detail::Bubble(_, _) => DetailType::Bubble,
            Detail::Skull(_) => DetailType::Skull,
            Detail::SludgeToken(_) => DetailType::SludgeToken,
        }
    }

    fn duplicate(&self) -> (r: Self)
        ensures
            same_detail(r, *self),
    {
        match self {
            Detail::Pipe(p) => Detail::Pipe(*p),
            Detail::Coins1 => Detail::Coins1,
            Detail::Coins2 => Detail::Coins2,
            Detail::Coins3 => Detail::Coins3,
            Detail::Bubble(o, t) => Detail::Bubble(*o, *t),
            Detail::Skull(s) => Detail::Skull(s.duplicate()),
            Detail::SludgeToken(t) => Detail::SludgeToken(*t),
        }
    }

    /// The fields this detail lets `team` see, and how well: a bubble shows
    /// its own field `pos` in true sight to its owner's team. `owner_team`
    /// is the team of the player owning the detail, where that player is in
    /// the game.
    pub fn get_vision(&self, pos: Point, owner_team: Option<ClientPerspective>, team: ClientPerspective) -> (r: Vec<(Point, FogIntensity)>)
        ensures
            r@ == (if self is Bubble && owner_team == Some(team) {
                seq![(pos, FogIntensity::TrueSight)]
            } else {
                Seq::<(Point, FogIntensity)>::empty()
            }),
    {
        let mut result: Vec<(Point, FogIntensity)> = Vec::new();
        match self {
            Detail::Bubble(_, _) => {
                if let Some(t) = owner_team {
                    if t == team {
                        result.push((pos, FogIntensity::TrueSight));
                    }
                }
            },
            _ => {},
        }
        result
    }

    /// What a team sees of this detail under the given fog: every detail is
    /// shown as it is.
    pub fn fog_replacement(&self, intensity: FogIntensity) -> (r: Option<Self>)
        ensures
            r matches Some(d) && same_detail(d, *self),
    {
        match intensity {
            FogIntensity::NormalVision | FogIntensity::TrueSight => Some(self.duplicate()),
            FogIntensity::Light | FogIntensity::Dark => Some(self.duplicate()),
        }
    }

    /// Largest remaining turn count among the sludge tokens, or 0.
    fn max_sludge(details: &Vec<Self>, players: Option<&Vec<i8>>) -> (m: usize)
        requires
            players matches Some(ps) ==> ps.len() * 256 <= usize::MAX,
        ensures
            m == max_sludge_turns(details@, players_view(players)),
    {
        let mut m: usize = 0;
        let mut i: usize = 0;
        while i < details.len()
            invariant
                i <= details.len(),
                players matches Some(ps) ==> ps.len() * 256 <= usize::MAX,
                m == max_sludge_turns(details@.take(i as int), players_view(players)),
            decreases details.len() - i,
        {
            assert(details@.take(i + 1).drop_last() =~= details@.take(i as int));
            match &details[i] {
                Detail::SludgeToken(t) => {
                    match t.remaining_turns(players) {
                        Some(r) => {
                            if r > m {
                                m = r;
                            }
                        },
                        None => {},
                    }
                },
                _ => {},
            }
            i += 1;
        }
        assert(details@.take(details.len() as int) =~= details@);
        m
    }

    /// Removes details that conflict with other details of the same field.
    /// The scan starts at the back, so that a newly added detail replaces
    /// older ones; the result lists the kept details newest first.
    pub fn correct_stack(details: Vec<Self>, can_build_base: &Vec<bool>, players: Option<&Vec<i8>>) -> (r: Vec<Self>)
        requires
            bubbles_on_known_terrain(details@, can_build_base@),
            players matches Some(ps) ==> ps.len() * 256 <= usize::MAX,
        ensures
            r@ == corrected_stack(details@, can_build_base@, players_view(players)),
    {
        let max_sludge = Self::max_sludge(&details, players);
        let ghost full = stack_scan(
            details@.reverse(),
            (false, false, false, seq![]),
            can_build_base@,
            max_sludge as int,
            players_view(players),
        );
        let ghost orig = details@;
        let mut details = details;
        let mut result: Vec<Self> = Vec::new();
        let mut bubble = false;
        let mut coin = false;
        let mut skull = false;
        let mut pipe_directions: Vec<D> = Vec::new();
        let ghost mut dirs: Seq<nat> = seq![];
        while result.len() < MAX_STACK_SIZE as usize && details.len() > 0
            invariant
                result@ + stack_scan(
                    details@.reverse(),
                    (bubble, coin, skull, dirs),
                    can_build_base@,
                    max_sludge as int,
                    players_view(players),
                ) == full,
                pipe_directions.len() == dirs.len(),
                forall|j: int| 0 <= j < dirs.len() ==> (#[trigger] pipe_directions[j]).index() == dirs[j],
                result.len() <= MAX_STACK_SIZE,
                bubbles_on_known_terrain(details@, can_build_base@),
                players matches Some(ps) ==> ps.len() * 256 <= usize::MAX,
            decreases details.len(),
        {
            let ghost before = details@;
            let d = details.pop().unwrap();
            proof {
                assert(before.reverse().drop_first() =~= details@.reverse());
                assert(before.reverse()[0] == d);
                assert(bubbles_on_known_terrain(details@, can_build_base@)) by {
                    assert forall|i: int| 0 <= i < details@.len() implies details@[i] == before[i] by {}
                }
                assert(before.len() > 0 && before[before.len() - 1] == d);
            }
            let remove = match &d {
                Detail::Pipe(c) => {
                    bubble || coin || skull || c.directions[0].is_same(&c.directions[1])
                        || contains_direction(&pipe_directions, c.directions[0])
                        || contains_direction(&pipe_directions, c.directions[1])
                },
                Detail::Bubble(_, t) => bubble || pipe_directions.len() > 0 || !can_build_base[t.0],
                Detail::Coins1 | Detail::Coins2 | Detail::Coins3 => coin || pipe_directions.len() > 0,
                Detail::Skull(_) => skull || pipe_directions.len() > 0,
                Detail::SludgeToken(t) => {
                    let turns = match t.remaining_turns(players) {
                        Some(v) => v,
                        None => 0,
                    };
                    max_sludge != turns || pipe_directions.len() > 0
                },
            };
            proof {
                if let Detail::Pipe(c) = d {
                    assert forall|x: nat| dirs.contains(x) == (exists|j: int|
                        0 <= j < pipe_directions.len() && (#[trigger] pipe_directions[j]).index() == x) by {
                        if dirs.contains(x) {
                            let j = choose|j: int| 0 <= j < dirs.len() && dirs[j] == x;
                            assert(pipe_directions[j].index() == x);
                        }
                        if exists|j: int| 0 <= j < pipe_directions.len() && (#[trigger] pipe_directions[j]).index() == x {
                            let j = choose|j: int| 0 <= j < pipe_directions.len() && (#[trigger] pipe_directions[j]).index() == x;
                            assert(dirs[j] == x);
                        }
                    }
                }
                assert(remove == stack_drops(
                    (bubble, coin, skull, dirs), d, can_build_base@, max_sludge as int, players_view(players)));
            }
            if !remove {
                match &d {
                    Detail::Pipe(c) => {
                        pipe_directions.push(c.directions[0]);
                        pipe_directions.push(c.directions[1]);
                        proof {
                            dirs = dirs.push(c.dir(0).index()).push(c.dir(1).index());
                        }
                    },
                    Detail::Bubble(_, _) => {
                        bubble = true;
                    },
                    Detail::Coins1 | Detail::Coins2 | Detail::Coins3 => {
                        coin = true;
                    },
                    Detail::Skull(_) => {
                        skull = true;
                    },
                    Detail::SludgeToken(_) => {},
                }
                let ghost kept = d;
                result.push(d);
                proof {
                    assert(result@ =~= (result@.drop_last()).push(kept));
                }
            }
        }
        proof {
            let rest = stack_scan(
                details@.reverse(),
                (bubble, coin, skull, dirs),
                can_build_base@,
                max_sludge as int,
                players_view(players),
            );
            if details.len() == 0 {
                assert(details@.reverse().len() == 0);
                assert(result@ =~= full);
            } else {
                assert(full.take(MAX_STACK_SIZE as int) =~= result@);
            }
        }
        result
    }
}


/// Whether one of `details` is a pipe that can be entered by moving in
/// direction index `entry`.
pub open spec fn pipe_accepts<D: Direction>(details: Seq<Detail<D>>, entry: nat) -> bool {
    exists|j: int| 0 <= j < details.len() && (#[trigger] details[j] matches Detail::Pipe(c) && c.entry_end(entry) is Some)
}

/// The new state of end `i` of pipe `c`: unchanged if there is no neighbor
/// in its direction, otherwise open unless a pipe on the neighboring field
/// continues it.
pub open spec fn fixed_end<D: Direction>(c: PipeState<D>, i: int, neighbor: Option<(Distortion<D>, Vec<Detail<D>>)>) -> bool {
    match neighbor {
        None => c.end(i),
        Some((dist, details)) => !pipe_accepts(details@, dist.apply(c.dir(i).index())),
    }
}

/// An end of a pipe that faces a field of the board is closed exactly when
/// a pipe on that field continues it: one with a direction pointing back
/// against the movement along the end's direction, as the distortion picked
/// up on the way turns it. An end that faces no field stays as it was.
pub proof fn lemma_pipe_end_meets_neighbor<D: Direction>(c: PipeState<D>, i: int, dist: Distortion<D>, details: Vec<Detail<D>>)
    requires
        0 <= i < 2,
    ensures
        ({
            let n = D::spec_count();
            let moving = dist.apply(c.dir(i).index());
            let back: int = if moving < n / 2 { (moving + n / 2) as int } else { moving - n / 2 };
            fixed_end(c, i, Some((dist, details))) <==> forall|j: int| 0 <= j < details@.len() ==> !(#[trigger] details@[j] matches Detail::Pipe(c2)
                && (c2.dir(0).index() == back || c2.dir(1).index() == back))
        }),
        fixed_end(c, i, None) == c.end(i),
{
    D::lemma_numbering();
    let n = D::spec_count();
    let moving = dist.apply(c.dir(i).index());
    let m = if dist.spec_mirrored() { index_add(n as int, -(c.dir(i).index() as int), n) } else { c.dir(i).index() };
    assert(moving < n) by {
        vstd::arithmetic::div_mod::lemma_mod_bound((m + dist.spec_rotation().index()) as int, n as int);
    }
    crate::direction::lemma_index_add_wrap(moving as int, (n / 2) as int, n);
    let back: int = if moving < n / 2 { (moving + n / 2) as int } else { moving - n / 2 };
    assert(index_add(moving as int, (n / 2) as int, n) == back);
}

impl<D: Direction> Detail<D> {
    fn any_pipe_accepts(details: &Vec<Detail<D>>, entry: D) -> (b: bool)
        ensures
            b == pipe_accepts(details@, entry.index()),
    {
        let mut j: usize = 0;
        while j < details.len()
            invariant
                j <= details.len(),
                forall|k: int| 0 <= k < j ==> !(#[trigger] details@[k] matches Detail::Pipe(c) && c.entry_end(entry.index()) is Some),
            decreases details.len() - j,
        {
            match &details[j] {
                Detail::Pipe(c2) => {
                    if c2.distortion(entry).is_some() {
                        assert(details@[j as int] matches Detail::Pipe(c) && c.entry_end(entry.index()) is Some);
                        return true;
                    }
                },
                _ => {},
            }
            j += 1;
        }
        false
    }

    fn fixed_end_exec(c: &PipeState<D>, i: usize, neighbor: &Option<(Distortion<D>, Vec<Detail<D>>)>) -> (b: bool)
        requires
            i < 2,
        ensures
            b == fixed_end(*c, i as int, *neighbor),
    {
        match neighbor {
            None => c.ends[i],
            Some((dist, details)) => {
                let entry = dist.update_direction(c.directions[i]);
                !Self::any_pipe_accepts(details, entry)
            },
        }
    }

    /// Recomputes which ends of a pipe are open. `neighbors[i]` describes
    /// the field in the direction of the pipe's end `i`: None if the board
    /// has no field there, else the distortion picked up on the way and the
    /// details lying there. Other details stay as they are.
    pub fn fix_self(&mut self, neighbors: &Vec<Option<(Distortion<D>, Vec<Detail<D>>)>>)
        requires
            *old(self) is Pipe ==> neighbors.len() == 2,
        ensures
            match *old(self) {
                Detail::Pipe(c) => *final(self) matches Detail::Pipe(c2) && {
                    &&& c2.dir(0) == c.dir(0)
                    &&& c2.dir(1) == c.dir(1)
                    &&& c2.end(0) == fixed_end(c, 0, neighbors@[0])
                    &&& c2.end(1) == fixed_end(c, 1, neighbors@[1])
                },
                _ => *final(self) == *old(self),
            },
    {
        let fixed = match &*self {
            Detail::Pipe(c) => {
                let e0 = Self::fixed_end_exec(c, 0, &neighbors[0]);
                let e1 = Self::fixed_end_exec(c, 1, &neighbors[1]);
                Some(PipeState { directions: c.directions, ends: [e0, e1] })
            },
            _ => None,
        };
        match fixed {
            Some(c) => {
                *self = Detail::Pipe(c);
            },
            None => {},
        }
    }
}


/// Whether the older detail `b` may stay below the newer detail `a`:
/// at most one bubble, one coin stack and one skull per field, pipes share
/// no direction, and nothing but sludge or other pipes lies below a pipe,
/// nor does a pipe lie below a bubble, coins or a skull.
pub open spec fn stays_below<D: Direction>(a: Detail<D>, b: Detail<D>) -> bool {
    match (a, b) {
        (Detail::Bubble(_, _), Detail::Bubble(_, _)) => false,
        (Detail::Coins1 | Detail::Coins2 | Detail::Coins3, Detail::Coins1 | Detail::Coins2 | Detail::Coins3) => false,
        (Detail::Skull(_), Detail::Skull(_)) => false,
        (Detail::Pipe(c1), Detail::Pipe(c2)) => {
            &&& c1.dir(0).index() != c2.dir(0).index()
            &&& c1.dir(0).index() != c2.dir(1).index()
            &&& c1.dir(1).index() != c2.dir(0).index()
            &&& c1.dir(1).index() != c2.dir(1).index()
        },
        (Detail::Pipe(_), _) => false,
        (Detail::Bubble(_, _) | Detail::Coins1 | Detail::Coins2 | Detail::Coins3 | Detail::Skull(_), Detail::Pipe(_)) => false,
        _ => true,
    }
}

/// The state of a scan that has kept nothing yet.
pub open spec fn empty_scan() -> StackScan {
    (false, false, false, seq![])
}

/// Keeping more never lets the scan keep a detail it would have dropped.
proof fn lemma_drops_monotone<D: Direction>(
    st: StackScan,
    d: Detail<D>,
    x: Detail<D>,
    can_build_base: Seq<bool>,
    max_sludge: int,
    players: Option<Seq<i8>>,
)
    requires
        stack_drops(st, x, can_build_base, max_sludge, players),
    ensures
        stack_drops(stack_keep(st, d), x, can_build_base, max_sludge, players),
{
    if let Detail::Pipe(c) = d {
        let dirs = st.3.push(c.dir(0).index()).push(c.dir(1).index());
        assert forall|v: nat| st.3.contains(v) implies dirs.contains(v) by {
            let j = choose|j: int| 0 <= j < st.3.len() && st.3[j] == v;
            assert(dirs[j] == v);
        }
    }
}

proof fn lemma_scan_consistent<D: Direction>(
    items: Seq<Detail<D>>,
    st: StackScan,
    can_build_base: Seq<bool>,
    max_sludge: int,
    players: Option<Seq<i8>>,
)
    ensures
        ({
            let out = stack_scan(items, st, can_build_base, max_sludge, players);
            &&& forall|k: int| 0 <= k < out.len() ==> !stack_drops(st, #[trigger] out[k], can_build_base, max_sludge, players)
            &&& forall|k: int| 0 <= k < out.len() ==> items.contains(#[trigger] out[k])
            &&& forall|i: int, j: int| 0 <= i < j < out.len() ==> stays_below(#[trigger] out[i], #[trigger] out[j])
        }),
    decreases items.len(),
{
    if items.len() > 0 {
        let d = items[0];
        lemma_scan_consistent(items.drop_first(), st, can_build_base, max_sludge, players);
        lemma_scan_consistent(items.drop_first(), stack_keep(st, d), can_build_base, max_sludge, players);
        let out = stack_scan(items, st, can_build_base, max_sludge, players);
        if stack_drops(st, d, can_build_base, max_sludge, players) {
            assert(out == stack_scan(items.drop_first(), st, can_build_base, max_sludge, players));
            assert forall|k: int| 0 <= k < out.len() implies items.contains(#[trigger] out[k]) by {
                assert(items.drop_first().contains(out[k]));
                let m = choose|m: int| 0 <= m < items.drop_first().len() && items.drop_first()[m] == out[k];
                assert(items[m + 1] == out[k]);
            }
        } else {
            let st2 = stack_keep(st, d);
            let rest = stack_scan(items.drop_first(), st2, can_build_base, max_sludge, players);
            assert(out == seq![d] + rest);
            assert forall|k: int| 0 <= k < out.len() implies !stack_drops(st, #[trigger] out[k], can_build_base, max_sludge, players) by {
                if k > 0 {
                    assert(out[k] == rest[k - 1]);
                    if stack_drops(st, out[k], can_build_base, max_sludge, players) {
                        lemma_drops_monotone(st, d, out[k], can_build_base, max_sludge, players);
                    }
                }
            }
            assert forall|k: int| 0 <= k < out.len() implies items.contains(#[trigger] out[k]) by {
                if k == 0 {
                    assert(items[0] == out[k]);
                } else {
                    assert(out[k] == rest[k - 1]);
                    assert(items.drop_first().contains(rest[k - 1]));
                    let m = choose|m: int| 0 <= m < items.drop_first().len() && items.drop_first()[m] == rest[k - 1];
                    assert(items[m + 1] == out[k]);
                }
            }
            assert forall|i: int, j: int| 0 <= i < j < out.len() implies stays_below(#[trigger] out[i], #[trigger] out[j]) by {
                assert(out[j] == rest[j - 1]);
                if i == 0 {
                    let x = rest[j - 1];
                    assert(!stack_drops(st2, x, can_build_base, max_sludge, players));
                    if let Detail::Pipe(c) = d {
                        let dirs = st.3.push(c.dir(0).index()).push(c.dir(1).index());
                        assert(dirs[dirs.len() - 1] == c.dir(1).index());
                        assert(dirs[dirs.len() - 2] == c.dir(0).index());
                        assert(dirs.contains(c.dir(0).index()));
                        assert(dirs.contains(c.dir(1).index()));
                    }
                } else {
                    assert(out[i] == rest[i - 1]);
                }
            }
        }
    }
}

/// Law of the corrected stack: it keeps at most `MAX_STACK_SIZE` details,
/// all taken from the input; each kept detail is valid on its own (pipes
/// have two different directions, bubbles stand on terrain that allows a
/// base, sludge tokens are the ones lasting longest); every kept detail may
/// stay below each newer kept one; and the newest detail is always kept
/// when it is valid on its own.
pub proof fn lemma_corrected_stack<D: Direction>(
    details: Seq<Detail<D>>,
    can_build_base: Seq<bool>,
    players: Option<Seq<i8>>,
)
    ensures
        ({
            let r = corrected_stack(details, can_build_base, players);
            let max_sludge = max_sludge_turns(details, players);
            &&& r.len() <= MAX_STACK_SIZE
            &&& forall|k: int| 0 <= k < r.len() ==> details.contains(#[trigger] r[k])
            &&& forall|k: int| 0 <= k < r.len() ==> !stack_drops(empty_scan(), #[trigger] r[k], can_build_base, max_sludge, players)
            &&& forall|i: int, j: int| 0 <= i < j < r.len() ==> stays_below(#[trigger] r[i], #[trigger] r[j])
            &&& (details.len() > 0 && !stack_drops(empty_scan(), details.last(), can_build_base, max_sludge, players)
                ==> r.len() > 0 && r[0] == details.last())
        }),
{
    let max_sludge = max_sludge_turns(details, players);
    let rev = details.reverse();
    let out = stack_scan(rev, empty_scan(), can_build_base, max_sludge, players);
    let r = corrected_stack(details, can_build_base, players);
    lemma_scan_consistent(rev, empty_scan(), can_build_base, max_sludge, players);
    assert forall|k: int| 0 <= k < r.len() implies details.contains(#[trigger] r[k]) by {
        assert(r[k] == out[k]);
        let m = choose|m: int| 0 <= m < rev.len() && rev[m] == out[k];
        assert(details[details.len() - 1 - m] == out[k]);
    }
    assert forall|k: int| 0 <= k < r.len() implies !stack_drops(empty_scan(), #[trigger] r[k], can_build_base, max_sludge, players) by {
        assert(r[k] == out[k]);
    }
    assert forall|i: int, j: int| 0 <= i < j < r.len() implies stays_below(#[trigger] r[i], #[trigger] r[j]) by {
        assert(r[i] == out[i]);
        assert(r[j] == out[j]);
    }
    if details.len() > 0 && !stack_drops(empty_scan(), details.last(), can_build_base, max_sludge, players) {
        assert(rev[0] == details.last());
        assert(out[0] == details.last());
    }
}

/// Whether `idx` picks `a` out of `b`: `a[k]` is `b[idx[k]]`, with the
/// positions increasing.
pub open spec fn subsequence_at<T>(a: Seq<T>, b: Seq<T>, idx: Seq<int>) -> bool {
    &&& idx.len() == a.len()
    &&& forall|k: int| 0 <= k < idx.len() ==> 0 <= #[trigger] idx[k] < b.len() && b[idx[k]] == a[k]
    &&& forall|k: int, l: int| 0 <= k < l < idx.len() ==> #[trigger] idx[k] < #[trigger] idx[l]
}

/// Whether `a` is `b` with some elements left out.
pub open spec fn is_subsequence<T>(a: Seq<T>, b: Seq<T>) -> bool {
    exists|idx: Seq<int>| #[trigger] subsequence_at(a, b, idx)
}

proof fn scan_indices<D: Direction>(
    items: Seq<Detail<D>>,
    st: StackScan,
    can_build_base: Seq<bool>,
    max_sludge: int,
    players: Option<Seq<i8>>,
) -> (idx: Seq<int>)
    ensures
        subsequence_at(stack_scan(items, st, can_build_base, max_sludge, players), items, idx),
    decreases items.len(),
{
    if items.len() == 0 {
        seq![]
    } else {
        let rest = items.drop_first();
        if stack_drops(st, items[0], can_build_base, max_sludge, players) {
            let i = scan_indices(rest, st, can_build_base, max_sludge, players);
            let r = i.map_values(|x: int| x + 1);
            assert forall|k: int| 0 <= k < r.len() implies 0 <= #[trigger] r[k] < items.len() && items[r[k]] == stack_scan(items, st, can_build_base, max_sludge, players)[k] by {
                assert(items[i[k] + 1] == rest[i[k]]);
            }
            assert forall|k: int, l: int| 0 <= k < l < r.len() implies #[trigger] r[k] < #[trigger] r[l] by {
                assert(i[k] < i[l]);
            }
            r
        } else {
            let i = scan_indices(rest, stack_keep(st, items[0]), can_build_base, max_sludge, players);
            let out = stack_scan(items, st, can_build_base, max_sludge, players);
            let tail = stack_scan(rest, stack_keep(st, items[0]), can_build_base, max_sludge, players);
            let r = seq![0int] + i.map_values(|x: int| x + 1);
            assert(out == seq![items[0]] + tail);
            assert forall|k: int| 0 <= k < r.len() implies 0 <= #[trigger] r[k] < items.len() && items[r[k]] == out[k] by {
                if k > 0 {
                    assert(r[k] == i[k - 1] + 1);
                    assert(items[i[k - 1] + 1] == rest[i[k - 1]]);
                    assert(out[k] == tail[k - 1]);
                }
            }
            assert forall|k: int, l: int| 0 <= k < l < r.len() implies #[trigger] r[k] < #[trigger] r[l] by {
                if k > 0 {
                    assert(i[k - 1] < i[l - 1]);
                } else {
                    assert(r[l] == i[l - 1] + 1);
                }
            }
            r
        }
    }
}

/// Law of the corrected stack's order: read from the oldest, the kept
/// details are the input with some details left out, so of two
/// conflicting details the newer one is the one kept.
pub proof fn lemma_corrected_stack_keeps_order<D: Direction>(
    details: Seq<Detail<D>>,
    can_build_base: Seq<bool>,
    players: Option<Seq<i8>>,
)
    ensures
        is_subsequence(corrected_stack(details, can_build_base, players).reverse(), details),
{
    let rev = details.reverse();
    let out = stack_scan(rev, (false, false, false, seq![]), can_build_base, max_sludge_turns(details, players), players);
    let i = scan_indices(rev, (false, false, false, seq![]), can_build_base, max_sludge_turns(details, players), players);
    let r = corrected_stack(details, can_build_base, players);
    let n = r.len();
    assert(n <= out.len());
    assert forall|k: int| 0 <= k < n implies r[k] == out[k] by {}
    let j = Seq::new(n, |k: int| details.len() - 1 - i[n - 1 - k]);
    let rr = r.reverse();
    assert forall|k: int| 0 <= k < j.len() implies 0 <= #[trigger] j[k] < details.len() && details[j[k]] == rr[k] by {
        let m = n - 1 - k;
        assert(rr[k] == r[m]);
        assert(r[m] == out[m]);
        assert(rev[i[m]] == out[m]);
        assert(rev[i[m]] == details[details.len() - 1 - i[m]]);
    }
    assert forall|k: int, l: int| 0 <= k < l < j.len() implies #[trigger] j[k] < #[trigger] j[l] by {
        assert(i[n - 1 - l] < i[n - 1 - k]);
    }
    assert(subsequence_at(rr, details, j));
}

/// Law of pipes: the distortion that `distortion` hands out for an entry
/// direction turns that direction into the direction of the pipe's other end.
pub proof fn lemma_pipe_leads_to_other_end<D: Direction>(p: PipeState<D>, entry: D, dist: Distortion<D>)
    requires
        p.entry_end(entry.index()) is Some,
        !dist.spec_mirrored(),
        dist.spec_rotation().index() == p.exit_rotation(entry.index(), p.entry_end(entry.index())->0),
    ensures
        dist.apply(entry.index()) == p.dir(1 - p.entry_end(entry.index())->0).index(),
{
    D::lemma_numbering();
    let n = D::spec_count();
    let i = p.entry_end(entry.index())->0;
    let exit = p.dir(1 - i).index() as int;
    crate::direction::lemma_index_add_assoc(entry.index() as int, exit, -entry.index(), n);
    crate::direction::lemma_index_add_wrap(exit, 0, n);
}

} // verus!
