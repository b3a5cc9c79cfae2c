//! The four-way cardinal direction type and its rotational algebra:
//! clockwise neighbour, counter-clockwise neighbour, and 180-degree
//! reflection. All three operations are pure and total over the four values.

use vstd::prelude::*;

verus! {

/// One of the four cardinal directions. Rotation operations are closed over
/// this set; no other value exists.
#[derive(Clone, Copy, PartialEq, Eq, Structural, Debug)]
pub enum Cardinals {
    North,
    East,
    West,
    South,
}

/// The clockwise neighbour: North -> East -> South -> West -> North.
pub open spec fn spec_next(c: Cardinals) -> Cardinals {
    match c {
        Cardinals::North => Cardinals::East,
        Cardinals::East => Cardinals::South,
        Cardinals::South => Cardinals::West,
        Cardinals::West => Cardinals::North,
    }
}

/// The counter-clockwise neighbour, inverse of [`spec_next`].
pub open spec fn spec_previous(c: Cardinals) -> Cardinals {
    match c {
        Cardinals::North => Cardinals::West,
        Cardinals::West => Cardinals::South,
        Cardinals::South => Cardinals::East,
        Cardinals::East => Cardinals::North,
    }
}

/// The 180-degree reflection: North <-> South, East <-> West.
pub open spec fn spec_opposite(c: Cardinals) -> Cardinals {
    match c {
        Cardinals::North => Cardinals::South,
        Cardinals::South => Cardinals::North,
        Cardinals::East => Cardinals::West,
        Cardinals::West => Cardinals::East,
    }
}

impl Cardinals {
    /// Returns the clockwise neighbour of this direction.
    pub fn next(&self) -> (r: Cardinals)
        ensures
            r == spec_next(*self),
    {
        match self {
            Cardinals::North => Cardinals::East,
            Cardinals::South => Cardinals::West,
            Cardinals::East => Cardinals::South,
            Cardinals::West => Cardinals::North,
        }
    }

    /// Returns the counter-clockwise neighbour of this direction.
    pub fn previous(&self) -> (r: Cardinals)
        ensures
            r == spec_previous(*self),
    {
        match self {
            Cardinals::North => Cardinals::West,
            Cardinals::South => Cardinals::East,
            Cardinals::East => Cardinals::North,
            Cardinals::West => Cardinals::South,
        }
    }
}

/// Returns the direction 180 degrees from `c`.
pub fn opposite(c: &Cardinals) -> (r: Cardinals)
    ensures
        r == spec_opposite(*c),
{
    match *c {
        Cardinals::North => Cardinals::South,
        Cardinals::South => Cardinals::North,
        Cardinals::East => Cardinals::West,
        Cardinals::West => Cardinals::East,
    }
}

/// Inverse laws of the rotation algebra: for every direction `d`, taking the
/// counter-clockwise neighbour and then the clockwise one (or the other way
/// round) yields `d` again.
pub proof fn lemma_next_previous_inverse(d: Cardinals)
    ensures
        spec_next(spec_previous(d)) == d,
        spec_previous(spec_next(d)) == d,
{
}

/// The 180-degree reflection is an involution: applying it twice to any
/// direction yields the original direction.
pub proof fn lemma_opposite_involution(d: Cardinals)
    ensures
        spec_opposite(spec_opposite(d)) == d,
{
}

} // verus!
