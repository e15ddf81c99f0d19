//! The four logical directions and the cycle that orders them.

use vstd::prelude::*;

verus! {

/// One of the four logical directions of the hat.
#[derive(Debug, Copy, Clone, PartialEq, Eq, Structural)]
pub enum Direction {
    Up,
    Right,
    Down,
    Left,
}

impl Direction {
    /// The place of a direction on the clockwise cycle Up, Right, Down, Left.
    pub open spec fn index(self) -> int {
        match self {
            Direction::Up => 0,
            Direction::Right => 1,
            Direction::Down => 2,
            Direction::Left => 3,
        }
    }

    /// The direction that faces this one across the square.
    pub open spec fn opposite(self) -> Direction {
        match self {
            Direction::Up => Direction::Down,
            Direction::Right => Direction::Left,
            Direction::Down => Direction::Up,
            Direction::Left => Direction::Right,
        }
    }
}

/// The pair (left neighbour, right neighbour) of a side, as seen by someone
/// who faces that side from the middle of the square.
pub open spec fn relative_directions(side: Direction) -> (Direction, Direction) {
    match side {
        Direction::Up => (Direction::Left, Direction::Right),
        Direction::Right => (Direction::Up, Direction::Down),
        Direction::Down => (Direction::Right, Direction::Left),
        Direction::Left => (Direction::Down, Direction::Up),
    }
}

/// Returns the left and the right neighbour of `side`.
pub fn get_relative_directions(side: Direction) -> (pair: (Direction, Direction))
    ensures
        pair == relative_directions(side),
{
    match side {
        Direction::Up => (Direction::Left, Direction::Right),
        Direction::Right => (Direction::Up, Direction::Down),
        Direction::Down => (Direction::Right, Direction::Left),
        Direction::Left => (Direction::Down, Direction::Up),
    }
}

/// The neighbours of a direction are the two directions next to it on the
/// cycle: the left one a step before it, the right one a step after it.
/// Neither is the direction itself or its opposite, and they face each other.
pub proof fn lemma_relative_directions_adjacent(d: Direction)
    ensures
        relative_directions(d).0 != d,
        relative_directions(d).1 != d,
        relative_directions(d).0 != d.opposite(),
        relative_directions(d).1 != d.opposite(),
        relative_directions(d).0 == relative_directions(d).1.opposite(),
        relative_directions(d).0.index() == (d.index() + 3) % 4,
        relative_directions(d).1.index() == (d.index() + 1) % 4,
{
}

/// Taking neighbours twice stays on the cycle: `d` is the right neighbour of
/// its left neighbour and the left neighbour of its right neighbour, and the
/// far neighbour of either is the opposite of `d`.
pub proof fn lemma_relative_directions_twice(d: Direction)
    ensures
        relative_directions(relative_directions(d).0).1 == d,
        relative_directions(relative_directions(d).1).0 == d,
        relative_directions(relative_directions(d).0).0 == d.opposite(),
        relative_directions(relative_directions(d).1).1 == d.opposite(),
{
}

} // verus!
