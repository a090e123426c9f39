use vstd::prelude::*;

verus! {

/// Index of the direction reached by adding `b` steps to direction index `a`
/// on a compass with `n` directions.
pub open spec fn index_add(a: int, b: int, n: nat) -> nat
    recommends n > 0,
{
    ((a + b) % (n as int)) as nat
}

/// A direction on a board whose fields have `count()` neighbors.
/// Directions are numbered counter-clockwise, starting with `angle_0`.
pub trait Direction: Sized + Copy {
    /// Number of directions of this board geometry.
    spec fn spec_count() -> nat;

    /// Position of this direction, counted counter-clockwise from `angle_0`.
    spec fn index(self) -> nat;

    /// The direction with the given index (taken modulo the count).
    spec fn from_index(i: int) -> Self;

    /// The numbering is a bijection between directions and `0..count()`.
    proof fn lemma_numbering()
        ensures
            Self::spec_count() >= 4,
            Self::spec_count() % 2 == 0,
            forall|d: Self| #[trigger] d.index() < Self::spec_count(),
            forall|d: Self| Self::from_index(#[trigger] d.index() as int) == d,
            forall|i: int| #[trigger] Self::from_index(i).index() == index_add(i, 0, Self::spec_count()),
    ;

    fn count() -> (n: usize)
        ensures
            n == Self::spec_count(),
    ;

    fn angle_0() -> (d: Self)
        ensures
            d.index() == 0,
    ;

    /// Compares two directions.
    fn is_same(&self, other: &Self) -> (b: bool)
        ensures
            b == (self.index() == other.index()),
    ;

    fn opposite_direction(&self) -> (d: Self)
        ensures
            d.index() == index_add(self.index() as int, (Self::spec_count() / 2) as int, Self::spec_count()),
    ;

    /// Adds the angle of `other` to this direction.
    fn rotate_by(&self, other: Self) -> (d: Self)
        ensures
            d.index() == index_add(self.index() as int, other.index() as int, Self::spec_count()),
    ;

    /// Reflects this direction at the horizontal axis.
    fn mirror_vertically(&self) -> (d: Self)
        ensures
            d.index() == index_add(Self::spec_count() as int, -self.index(), Self::spec_count()),
    ;

    /// Turns one step; clockwise lowers the index.
    fn rotate(&self, clockwise: bool) -> (d: Self)
        ensures
            d.index() == index_add(self.index() as int, if clockwise { -1int } else { 1int }, Self::spec_count()),
    ;

    /// Whether the board is hexagonal.
    fn is_hex() -> (b: bool)
        ensures
            b == (Self::spec_count() == 6),
    ;

    /// The position of this direction in `list()`.
    fn list_index(&self) -> (i: usize)
        ensures
            i == self.index(),
    ;

    /// All directions in counter-clockwise order, starting with `angle_0`.
    fn list() -> (v: Vec<Self>)
        ensures
            v.len() == Self::spec_count(),
            forall|i: int| 0 <= i < v.len() ==> (#[trigger] v[i]).index() == i,
    ;
}

/// The four directions of a square grid.
#[derive(Debug, Clone, Copy, PartialEq, Eq, Structural, Hash, PartialOrd, Ord)]
pub enum Direction4 {
    D0,
    D90,
    D180,
    D270,
}

/// The six directions of a hexagonal grid.
#[derive(Debug, Clone, Copy, PartialEq, Eq, Structural, Hash, PartialOrd, Ord)]
pub enum Direction6 {
    D0,
    D60,
    D120,
    D180,
    D240,
    D300,
}

impl Direction4 {
    fn by_index(i: usize) -> (d: Self)
        requires
            i < 4,
        ensures
            d.index() == i,
    {
        match i {
            0 => Direction4::D0,
            1 => Direction4::D90,
            2 => Direction4::D180,
            _ => Direction4::D270,
        }
    }

    fn position(&self) -> (i: usize)
        ensures
            i == self.index(),
    {
        match self {
            Direction4::D0 => 0,
            Direction4::D90 => 1,
            Direction4::D180 => 2,
            Direction4::D270 => 3,
        }
    }
}

impl Direction for Direction4 {
    open spec fn spec_count() -> nat {
        4
    }

    open spec fn index(self) -> nat {
        match self {
            Direction4::D0 => 0,
            Direction4::D90 => 1,
            Direction4::D180 => 2,
            Direction4::D270 => 3,
        }
    }

    open spec fn from_index(i: int) -> Self {
        let j = i % 4;
        if j == 0 {
            Direction4::D0
        } else if j == 1 {
            Direction4::D90
        } else if j == 2 {
            Direction4::D180
        } else {
            Direction4::D270
        }
    }

    proof fn lemma_numbering() {
    }

    fn count() -> (n: usize) {
        4
    }

    fn angle_0() -> (d: Self) {
        Direction4::D0
    }

    fn is_same(&self, other: &Self) -> (b: bool) {
        self.position() == other.position()
    }

    fn opposite_direction(&self) -> (d: Self) {
        Self::by_index((self.position() + 2) % 4)
    }

    fn rotate_by(&self, other: Self) -> (d: Self) {
        Self::by_index((self.position() + other.position()) % 4)
    }

    fn mirror_vertically(&self) -> (d: Self) {
        Self::by_index((4 - self.position()) % 4)
    }

    fn rotate(&self, clockwise: bool) -> (d: Self) {
        if clockwise {
            Self::by_index((self.position() + 3) % 4)
        } else {
            Self::by_index((self.position() + 1) % 4)
        }
    }

    fn is_hex() -> (b: bool) {
        false
    }

    fn list_index(&self) -> (i: usize) {
        self.position()
    }

    fn list() -> (v: Vec<Self>) {
        vec![Direction4::D0, Direction4::D90, Direction4::D180, Direction4::D270]
    }
}

impl Direction6 {
    fn by_index(i: usize) -> (d: Self)
        requires
            i < 6,
        ensures
            d.index() == i,
    {
        match i {
            0 => Direction6::D0,
            1 => Direction6::D60,
            2 => Direction6::D120,
            3 => Direction6::D180,
            4 => Direction6::D240,
            _ => Direction6::D300,
        }
    }

    fn position(&self) -> (i: usize)
        ensures
            i == self.index(),
    {
        match self {
            Direction6::D0 => 0,
            Direction6::D60 => 1,
            Direction6::D120 => 2,
            Direction6::D180 => 3,
            Direction6::D240 => 4,
            Direction6::D300 => 5,
        }
    }
}

impl Direction for Direction6 {
    open spec fn spec_count() -> nat {
        6
    }

    open spec fn index(self) -> nat {
        match self {
            Direction6::D0 => 0,
            Direction6::D60 => 1,
            Direction6::D120 => 2,
            Direction6::D180 => 3,
            Direction6::D240 => 4,
            Direction6::D300 => 5,
        }
    }

    open spec fn from_index(i: int) -> Self {
        let j = i % 6;
        if j == 0 {
            Direction6::D0
        } else if j == 1 {
            Direction6::D60
        } else if j == 2 {
            Direction6::D120
        } else if j == 3 {
            Direction6::D180
        } else if j == 4 {
            Direction6::D240
        } else {
            Direction6::D300
        }
    }

    proof fn lemma_numbering() {
    }

    fn count() -> (n: usize) {
        6
    }

    fn angle_0() -> (d: Self) {
        Direction6::D0
    }

    fn is_same(&self, other: &Self) -> (b: bool) {
        self.position() == other.position()
    }

    fn opposite_direction(&self) -> (d: Self) {
        Self::by_index((self.position() + 3) % 6)
    }

    fn rotate_by(&self, other: Self) -> (d: Self) {
        Self::by_index((self.position() + other.position()) % 6)
    }

    fn mirror_vertically(&self) -> (d: Self) {
        Self::by_index((6 - self.position()) % 6)
    }

    fn rotate(&self, clockwise: bool) -> (d: Self) {
        if clockwise {
            Self::by_index((self.position() + 5) % 6)
        } else {
            Self::by_index((self.position() + 1) % 6)
        }
    }

    fn is_hex() -> (b: bool) {
        true
    }

    fn list_index(&self) -> (i: usize) {
        self.position()
    }

    fn list() -> (v: Vec<Self>) {
        vec![
            Direction6::D0,
            Direction6::D60,
            Direction6::D120,
            Direction6::D180,
            Direction6::D240,
            Direction6::D300,
        ]
    }
}

/// A change of orientation picked up when crossing a wrapping edge or a pipe:
/// an optional reflection followed by a rotation.
#[derive(Debug, Clone, Copy, PartialEq, Eq)]
pub struct Distortion<D> {
    mirrored: bool,
    rotation: D,
}

impl<D: Direction> Distortion<D> {
    pub closed spec fn spec_mirrored(self) -> bool {
        self.mirrored
    }

    pub closed spec fn spec_rotation(self) -> D {
        self.rotation
    }

    /// What this distortion does to a direction index.
    pub open spec fn apply(self, i: nat) -> nat {
        let n = D::spec_count();
        let m = if self.spec_mirrored() { index_add(n as int, -i, n) } else { i };
        index_add(m as int, self.spec_rotation().index() as int, n)
    }

    /// What this distortion does to the index of a diagonal.
    pub open spec fn apply_diagonal(self, i: nat) -> nat {
        if self.spec_mirrored() {
            index_add(self.apply(i) as int, -1, D::spec_count())
        } else {
            self.apply(i)
        }
    }

    pub fn new(mirrored: bool, rotation: D) -> (r: Self)
        ensures
            r.spec_mirrored() == mirrored,
            r.spec_rotation() == rotation,
    {
        Distortion { mirrored, rotation }
    }

    pub fn is_mirrored(&self) -> (b: bool)
        ensures
            b == self.spec_mirrored(),
    {
        self.mirrored
    }

    pub fn get_rotation(&self) -> (d: D)
        ensures
            d == self.spec_rotation(),
    {
        self.rotation
    }

    /// The direction that `d` turns into after passing this distortion.
    pub fn update_direction(&self, d: D) -> (r: D)
        ensures
            r.index() == self.apply(d.index()),
            r == D::from_index(self.apply(d.index()) as int),
    {
        proof {
            D::lemma_numbering();
        }
        let m = if self.mirrored { d.mirror_vertically() } else { d };
        m.rotate_by(self.rotation)
    }

    /// Like `update_direction` for a diagonal, which is named after the
    /// direction on its clockwise side: a reflection swaps the sides.
    pub fn update_diagonal_direction(&self, d: D) -> (r: D)
        ensures
            r.index() == (if self.spec_mirrored() {
                index_add(self.apply(d.index()) as int, -1, D::spec_count())
            } else {
                self.apply(d.index())
            }),
            r == D::from_index(self.apply_diagonal(d.index()) as int),
    {
        proof {
            D::lemma_numbering();
        }
        let r = self.update_direction(d);
        if self.mirrored {
            r.rotate(true)
        } else {
            r
        }
    }
}

} // verus!

verus! {

/// Turning around twice gives back the original direction index.
pub proof fn lemma_opposite_twice<D: Direction>(i: nat)
    requires
        i < D::spec_count(),
    ensures
        index_add(
            index_add(i as int, (D::spec_count() / 2) as int, D::spec_count()) as int,
            (D::spec_count() / 2) as int,
            D::spec_count(),
        ) == i,
{
    D::lemma_numbering();
    let n = D::spec_count() as int;
    let h = n / 2;
    assert(h + h == n);
    if i + h < n {
        assert((i + h) % n == i + h) by (nonlinear_arith) requires 0 <= i + h < n;
        assert((i + h + h) % n == i) by (nonlinear_arith) requires i + h + h == i + n, 0 <= i < n;
    } else {
        assert((i + h) % n == i + h - n) by (nonlinear_arith) requires n <= i + h < 2 * n;
        assert((i + h - n + h) % n == i) by (nonlinear_arith) requires i + h - n + h == i, 0 <= i < n;
    }
}

} // verus!

verus! {

/// `index_add` of a sum that needs no or one wrap-around.
pub proof fn lemma_index_add_wrap(a: int, b: int, n: nat)
    requires
        n > 0,
        -(n as int) <= a + b < 2 * n,
    ensures
        0 <= a + b < n ==> index_add(a, b, n) == a + b,
        n <= a + b ==> index_add(a, b, n) == a + b - n,
        a + b < 0 ==> index_add(a, b, n) == a + b + n,
{
    let m = n as int;
    let s = a + b;
    if 0 <= s < m {
        assert(s % m == s) by (nonlinear_arith) requires 0 <= s < m;
    } else if m <= s {
        assert(s % m == s - m) by (nonlinear_arith) requires m <= s < 2 * m;
    } else {
        assert(s % m == s + m) by (nonlinear_arith) requires -m <= s < 0;
    }
}

} // verus!

verus! {

/// Reducing the inner sum first does not change `index_add`.
pub proof fn lemma_index_add_assoc(a: int, b: int, c: int, n: nat)
    requires
        n > 0,
    ensures
        index_add(a, index_add(b, c, n) as int, n) == index_add(a, b + c, n),
        index_add(index_add(a, b, n) as int, c, n) == index_add(a, b + c, n),
{
    vstd::arithmetic::div_mod::lemma_add_mod_noop_right(a, b + c, n as int);
    vstd::arithmetic::div_mod::lemma_add_mod_noop_right(c, a + b, n as int);
    assert((c + (a + b)) == a + (b + c));
    assert(((a + b) % (n as int)) + c == c + ((a + b) % (n as int)));
}

} // verus!

verus! {

/// Turns direction `d` by `times` single steps; clockwise lowers the index.
pub fn rotate_times<D: Direction>(d: D, clockwise: bool, times: u8) -> (r: D)
    ensures
        r.index() == index_add(d.index() as int, if clockwise { -(times as int) } else { times as int }, D::spec_count()),
{
    proof {
        D::lemma_numbering();
    }
    let mut r = d;
    let mut i: u8 = 0;
    assert(index_add(d.index() as int, 0, D::spec_count()) == d.index()) by {
        lemma_index_add_wrap(d.index() as int, 0, D::spec_count());
    }
    while i < times
        invariant
            i <= times,
            D::spec_count() >= 4,
            r.index() == index_add(d.index() as int, if clockwise { -(i as int) } else { i as int }, D::spec_count()),
        decreases times - i,
    {
        let ghost before = r.index();
        r = r.rotate(clockwise);
        proof {
            lemma_index_add_assoc(d.index() as int, if clockwise { -(i as int) } else { i as int },
                if clockwise { -1int } else { 1int }, D::spec_count());
        }
        i += 1;
    }
    r
}

} // verus!
