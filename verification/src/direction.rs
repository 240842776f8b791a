use vstd::prelude::*;

verus! {

/// A cardinal travel direction on the grid, or the boundary sentinel
/// `EndOfMap` that stands for "no direction" at the edge of the map.
#[allow(non_camel_case_types)]
#[derive(Debug, Clone, Copy, PartialEq, Eq, Hash, Structural)]
pub enum Direction {
    RIGHT,
    LEFT,
    UP,
    DOWN,
    EndOfMap,
}

impl Direction {
    /// The direction opposite to `self`: RIGHT and LEFT swap, UP and DOWN
    /// swap, and `EndOfMap` is its own opposite.
    pub open spec fn spec_opposite(self) -> Direction {
        match self {
            Direction::RIGHT => Direction::LEFT,
            Direction::LEFT => Direction::RIGHT,
            Direction::UP => Direction::DOWN,
            Direction::DOWN => Direction::UP,
            Direction::EndOfMap => Direction::EndOfMap,
        }
    }

    /// Returns the opposite direction.
    pub fn opposite(&self) -> (r: Direction)
        ensures
            r == self.spec_opposite(),
    {
        match self {
            Direction::RIGHT => Direction::LEFT,
            Direction::LEFT => Direction::RIGHT,
            Direction::UP => Direction::DOWN,
            Direction::DOWN => Direction::UP,
            Direction::EndOfMap => Direction::EndOfMap,
        }
    }
}

/// Taking the opposite of the opposite returns the starting direction, for
/// every direction; in particular `EndOfMap` maps to itself.
pub proof fn lemma_opposite_involution(d: Direction)
    ensures
        d.spec_opposite().spec_opposite() == d,
        Direction::EndOfMap.spec_opposite() == Direction::EndOfMap,
{
}

} // verus!
