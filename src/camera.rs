//! Discrete part of the camera control model: which basis vector a
//! movement command uses, and with which sign.

use vstd::prelude::*;

verus! {

/// A movement command of the free camera.
#[derive(Clone, Copy, Debug, PartialEq, Eq, Structural)]
pub enum Direction {
    Forward,
    Backward,
    Up,
    Down,
    Left,
    Right,
}

/// One of the three camera-relative basis vectors.
///
/// `Right` is the cross product `forward x up`, in that order.
#[derive(Clone, Copy, Debug, PartialEq, Eq, Structural)]
pub enum Axis {
    Forward,
    Up,
    Right,
}

/// The displacement direction of a movement: a basis vector, possibly negated.
#[derive(Clone, Copy, Debug, PartialEq, Eq, Structural)]
pub struct Basis {
    pub axis: Axis,
    pub negated: bool,
}

/// Forward/Backward follow `+-forward`, Up/Down follow `+-up`,
/// Right follows `forward x up` and Left its negation.
pub open spec fn basis_of(d: Direction) -> Basis {
    match d {
        Direction::Forward => Basis { axis: Axis::Forward, negated: false },
        Direction::Backward => Basis { axis: Axis::Forward, negated: true },
        Direction::Up => Basis { axis: Axis::Up, negated: false },
        Direction::Down => Basis { axis: Axis::Up, negated: true },
        Direction::Left => Basis { axis: Axis::Right, negated: true },
        Direction::Right => Basis { axis: Axis::Right, negated: false },
    }
}

/// The command that moves along the same axis the other way.
pub open spec fn opposite_of(d: Direction) -> Direction {
    match d {
        Direction::Forward => Direction::Backward,
        Direction::Backward => Direction::Forward,
        Direction::Up => Direction::Down,
        Direction::Down => Direction::Up,
        Direction::Left => Direction::Right,
        Direction::Right => Direction::Left,
    }
}

impl Direction {
    /// The basis vector and sign along which this command moves the camera.
    pub fn basis(self) -> (r: Basis)
        ensures
            r == basis_of(self),
    {
        match self {
            Direction::Forward => Basis { axis: Axis::Forward, negated: false },
            Direction::Backward => Basis { axis: Axis::Forward, negated: true },
            Direction::Up => Basis { axis: Axis::Up, negated: false },
            Direction::Down => Basis { axis: Axis::Up, negated: true },
            Direction::Left => Basis { axis: Axis::Right, negated: true },
            Direction::Right => Basis { axis: Axis::Right, negated: false },
        }
    }

    /// The command that undoes this one.
    pub fn opposite(self) -> (r: Direction)
        ensures
            r == opposite_of(self),
            basis_of(r).axis == basis_of(self).axis,
            basis_of(r).negated != basis_of(self).negated,
    {
        match self {
            Direction::Forward => Direction::Backward,
            Direction::Backward => Direction::Forward,
            Direction::Up => Direction::Down,
            Direction::Down => Direction::Up,
            Direction::Left => Direction::Right,
            Direction::Right => Direction::Left,
        }
    }
}

/// A move and its opposite follow one and the same basis vector with
/// opposite signs, and taking the opposite twice gives the move back; in
/// particular `Backward` follows `forward` negated.
pub proof fn lemma_opposite_basis(d: Direction)
    ensures
        basis_of(opposite_of(d)).axis == basis_of(d).axis,
        basis_of(opposite_of(d)).negated == !basis_of(d).negated,
        opposite_of(opposite_of(d)) == d,
        opposite_of(Direction::Forward) == Direction::Backward,
{
}

} // verus!
