use vstd::prelude::*;

use crate::direction::Direction;

verus! {

/// A field of the board.
#[derive(Debug, Clone, Copy, PartialEq, Eq, Structural, Hash)]
pub struct Point {
    pub x: usize,
    pub y: usize,
}

impl Point {
    pub fn new(x: usize, y: usize) -> (p: Self)
        ensures
            p.x == x && p.y == y,
    {
        Point { x, y }
    }
}

/// A field together with an orientation: whether the board is seen
/// mirrored there, and a direction.
#[derive(Debug, Clone, Copy, PartialEq, Eq)]
pub struct OrientedPoint<D> {
    pub point: Point,
    pub mirrored: bool,
    pub direction: D,
}

impl<D: Direction> OrientedPoint<D> {
    pub fn new(point: Point, mirrored: bool, direction: D) -> (r: Self)
        ensures
            r == (OrientedPoint { point, mirrored, direction }),
    {
        OrientedPoint { point, mirrored, direction }
    }

    /// An orientation that is not mirrored.
    pub fn simple(point: Point, direction: D) -> (r: Self)
        ensures
            r == (OrientedPoint { point, mirrored: false, direction }),
    {
        OrientedPoint { point, mirrored: false, direction }
    }
}

} // verus!
