use vstd::prelude::*;

use crate::config::file_loader::{FileLoader, LoaderNames};
use crate::config::listing::{listed_from_conf, spec_listed_from_conf, Listable};
use crate::config::parse::FromConfig;
use crate::config::{ConfigError, ConfigParseError};
use crate::direction::Direction;

verus! {

/// One step of a path.
#[derive(Debug, Clone, Copy, PartialEq, Eq)]
pub enum PathStep<D> {
    /// to the neighbor in a direction
    Dir(D),
    /// over the neighbor in a direction, landing on the field behind it
    Jump(D),
    /// to the diagonal neighbor between a direction and the next one
    /// counter-clockwise
    Diagonal(D),
    /// a chess knight's jump: two fields in a direction, then one to the
    /// left (true) or right (false)
    Knight(D, bool),
}

impl<D: Direction> PathStep<D> {
    /// The straight direction of this step, if it has one.
    pub open spec fn spec_dir(self) -> Option<D> {
        match self {
            PathStep::Dir(d) | PathStep::Jump(d) => Some(d),
            _ => None,
        }
    }

    /// The diagonal of this step, if it is a diagonal step.
    pub open spec fn spec_diagonal_dir(self) -> Option<D> {
        match self {
            PathStep::Diagonal(d) => Some(d),
            _ => None,
        }
    }

    pub fn dir(&self) -> (r: Option<D>)
        ensures
            r == self.spec_dir(),
    {
        match self {
            PathStep::Dir(d) | PathStep::Jump(d) => Some(*d),
            _ => None,
        }
    }

    pub fn diagonal_dir(&self) -> (r: Option<D>)
        ensures
            r == self.spec_diagonal_dir(),
    {
        match self {
            PathStep::Diagonal(d) => Some(*d),
            _ => None,
        }
    }
}

/// Whether a unit may take (capture) an enemy with its next step.
#[derive(Debug, Clone, Copy, PartialEq, Eq, Structural)]
pub enum PathStepTakes {
    Allow,
    Deny,
    Force,
}

/// State that a unit carries along its path while moving.
#[derive(Debug, Clone, Copy, PartialEq, Eq)]
pub enum TBallast<D> {
    /// movement points left
    MovementPoints(i32),
    /// the only direction the next straight step may take
    Direction(Option<D>),
    /// the only diagonal the next diagonal step may take
    DiagonalDirection(Option<D>),
    /// a direction the next straight step may not take
    ForbiddenDirection(Option<D>),
    Takes(PathStepTakes),
}

/// State that a unit keeps between turns.
#[derive(Debug, Clone, Copy, PartialEq, Eq)]
pub enum PbEntry<D> {
    /// the direction a pawn walks in
    PawnDirection(D),
}

/// Extra ways of moving that a terrain grants.
#[derive(Debug, Clone, Copy, PartialEq, Eq, Structural)]
pub enum ExtraMovementOptions {
    NoExtra,
    Jump,
}


impl Listable for ExtraMovementOptions {
    open spec fn spec_list() -> Seq<Self> {
        seq![Self::NoExtra, Self::Jump]
    }

    open spec fn spec_name(self) -> Seq<char> {
        match self {
            Self::NoExtra => "None"@,
            Self::Jump => "Jump"@,
        }
    }

    open spec fn spec_kind_name() -> Seq<char> {
        "ExtraMovementOptions"@
    }

    fn list() -> (r: Vec<Self>) {
        vec![Self::NoExtra, Self::Jump]
    }

    fn name(&self) -> (r: &'static str) {
        match self {
            Self::NoExtra => "None",
            Self::Jump => "Jump",
        }
    }

    fn kind_name() -> (r: &'static str) {
        "ExtraMovementOptions"
    }
}

impl FromConfig for ExtraMovementOptions {
    open spec fn spec_from_conf(s: Seq<char>, names: LoaderNames) -> Result<(Self, Seq<char>), ConfigError> {
        spec_listed_from_conf::<Self>(s)
    }

    fn from_conf<'a>(s: &'a [char], loader: &FileLoader) -> (r: Result<(Self, &'a [char]), ConfigParseError>) {
        listed_from_conf(s)
    }
}
} // verus!
