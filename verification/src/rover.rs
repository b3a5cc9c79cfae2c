//! The rover state and its two motion primitives: stepping one cell along or
//! against the current orientation, and turning 90 degrees. Both produce a
//! new rover value; nothing is mutated in place. Stepping wraps each updated
//! axis value back into `[0, grid_size)` with the non-negative residue, so a
//! decrement below zero comes out at `grid_size - 1`, never negative.

use vstd::arithmetic::div_mod::{
    lemma_mod_add_multiples_vanish, lemma_mod_bound, lemma_mod_self_0, lemma_small_mod,
};
use vstd::prelude::*;

use crate::cardinal::{spec_next, spec_previous, Cardinals};

verus! {

/// Sense of a step relative to the rover's current orientation: along it
/// (Forward) or against it (Backward).
#[derive(Clone, Copy, PartialEq, Eq, Structural, Debug)]
pub enum DirectionY {
    Forward,
    Backward,
}

/// Sense of a 90-degree turn: counter-clockwise (Left) or clockwise (Right).
#[derive(Clone, Copy, PartialEq, Eq, Structural, Debug)]
pub enum DirectionX {
    Left,
    Right,
}

/// The rover: a descriptive name (never used in logic), current orientation,
/// current position, and the extent of the grid it operates on, copied at
/// construction so the motion primitives can wrap without re-threading the
/// grid.
pub struct Rover {
    pub name: String,
    pub orientation: Cardinals,
    pub position: (i32, i32),
    pub grid_size: i32,
}

impl Rover {
    /// A rover is well formed when its grid extent is positive and its
    /// position lies within `[0, grid_size)` on both axes. Construction
    /// establishes this and every motion primitive preserves it.
    pub open spec fn wf(&self) -> bool {
        &&& 0 < self.grid_size
        &&& 0 <= self.position.0 < self.grid_size
        &&& 0 <= self.position.1 < self.grid_size
    }
}

/// The axis displacement of one step: which axis moves and in which sense,
/// as a function of the rover's orientation and the step sense.
pub open spec fn spec_step(c: Cardinals, dy: DirectionY) -> (int, int) {
    match c {
        Cardinals::North => match dy {
            DirectionY::Forward => (0int, 1int),
            DirectionY::Backward => (0int, -1int),
        },
        Cardinals::South => match dy {
            DirectionY::Forward => (0int, -1int),
            DirectionY::Backward => (0int, 1int),
        },
        Cardinals::East => match dy {
            DirectionY::Forward => (1int, 0int),
            DirectionY::Backward => (-1int, 0int),
        },
        Cardinals::West => match dy {
            DirectionY::Forward => (-1int, 0int),
            DirectionY::Backward => (1int, 0int),
        },
    }
}

/// The rover after one step of sense `dy`: name, orientation and grid extent
/// unchanged, each axis displaced by [`spec_step`] and taken modulo the grid
/// extent (the Euclidean, non-negative residue).
pub open spec fn spec_moved(r: Rover, dy: DirectionY) -> Rover {
    let d = spec_step(r.orientation, dy);
    let size = r.grid_size as int;
    Rover {
        name: r.name,
        orientation: r.orientation,
        grid_size: r.grid_size,
        position: (((r.position.0 + d.0) % size) as i32, ((r.position.1 + d.1) % size) as i32),
    }
}

/// The rover after a 90-degree turn of sense `dx`: name, position and grid
/// extent unchanged, orientation replaced by its clockwise (Right) or
/// counter-clockwise (Left) neighbour.
pub open spec fn spec_turned(r: Rover, dx: DirectionX) -> Rover {
    Rover {
        name: r.name,
        orientation: match dx {
            DirectionX::Right => spec_next(r.orientation),
            DirectionX::Left => spec_previous(r.orientation),
        },
        position: r.position,
        grid_size: r.grid_size,
    }
}

/// One axis value incremented with wrap-around into `[0, size)`.
fn wrap_increment(v: i32, size: i32) -> (r: i32)
    requires
        0 < size,
        0 <= v < size,
    ensures
        r as int == (v + 1) % (size as int),
{
    if v + 1 == size {
        proof {
            lemma_mod_self_0(size as int);
        }
        0
    } else {
        proof {
            lemma_small_mod((v + 1) as nat, size as nat);
        }
        v + 1
    }
}

/// One axis value decremented with wrap-around into `[0, size)`: the result
/// is the non-negative residue, so decrementing 0 yields `size - 1`.
fn wrap_decrement(v: i32, size: i32) -> (r: i32)
    requires
        0 < size,
        0 <= v < size,
    ensures
        r as int == (v - 1) % (size as int),
{
    if v == 0 {
        proof {
            lemma_mod_add_multiples_vanish(-1, size as int);
            lemma_small_mod((size - 1) as nat, size as nat);
        }
        size - 1
    } else {
        proof {
            lemma_small_mod((v - 1) as nat, size as nat);
        }
        v - 1
    }
}

impl Rover {
    /// Produces the rover one step away, of sense `dy` relative to the
    /// current orientation, with the updated axis wrapped back into range.
    pub fn move_rover(&self, dy: DirectionY) -> (r: Rover)
        requires
            self.wf(),
        ensures
            r == spec_moved(*self, dy),
            r.wf(),
    {
        let position: (i32, i32) = match self.orientation {
            Cardinals::North => match dy {
                DirectionY::Forward => (
                    self.position.0,
                    wrap_increment(self.position.1, self.grid_size),
                ),
                DirectionY::Backward => (
                    self.position.0,
                    wrap_decrement(self.position.1, self.grid_size),
                ),
            },
            Cardinals::South => match dy {
                DirectionY::Forward => (
                    self.position.0,
                    wrap_decrement(self.position.1, self.grid_size),
                ),
                DirectionY::Backward => (
                    self.position.0,
                    wrap_increment(self.position.1, self.grid_size),
                ),
            },
            Cardinals::East => match dy {
                DirectionY::Forward => (
                    wrap_increment(self.position.0, self.grid_size),
                    self.position.1,
                ),
                DirectionY::Backward => (
                    wrap_decrement(self.position.0, self.grid_size),
                    self.position.1,
                ),
            },
            Cardinals::West => match dy {
                DirectionY::Forward => (
                    wrap_decrement(self.position.0, self.grid_size),
                    self.position.1,
                ),
                DirectionY::Backward => (
                    wrap_increment(self.position.0, self.grid_size),
                    self.position.1,
                ),
            },
        };
        proof {
            let d = spec_step(self.orientation, dy);
            lemma_mod_bound(self.position.0 + d.0, self.grid_size as int);
            lemma_mod_bound(self.position.1 + d.1, self.grid_size as int);
            lemma_small_mod(self.position.0 as nat, self.grid_size as nat);
            lemma_small_mod(self.position.1 as nat, self.grid_size as nat);
        }
        Rover {
            name: self.name.clone(),
            orientation: self.orientation,
            grid_size: self.grid_size,
            position,
        }
    }

    /// Produces the rover turned 90 degrees in sense `dx`, in place.
    pub fn turn_rover(&self, dx: DirectionX) -> (r: Rover)
        ensures
            r == spec_turned(*self, dx),
    {
        Rover {
            name: self.name.clone(),
            orientation: match dx {
                DirectionX::Right => self.orientation.next(),
                DirectionX::Left => self.orientation.previous(),
            },
            grid_size: self.grid_size,
            position: self.position,
        }
    }
}

/// A step keeps the rover well formed: the wrapped axis values land back in
/// `[0, grid_size)`, never negative.
pub proof fn lemma_moved_wf(r: Rover, dy: DirectionY)
    requires
        r.wf(),
    ensures
        spec_moved(r, dy).wf(),
{
    let d = spec_step(r.orientation, dy);
    lemma_mod_bound(r.position.0 + d.0, r.grid_size as int);
    lemma_mod_bound(r.position.1 + d.1, r.grid_size as int);
}

/// One axis value stepped up then down (or down then up) with wrap-around
/// comes back to itself.
proof fn lemma_wrap_round_trip(p: int, s: int)
    requires
        0 < s,
        0 <= p < s,
    ensures
        ((p + 1) % s - 1) % s == p,
        ((p - 1) % s + 1) % s == p,
{
    if p + 1 == s {
        lemma_mod_self_0(s);
        lemma_mod_add_multiples_vanish(-1, s);
        lemma_small_mod((s - 1) as nat, s as nat);
    } else {
        lemma_small_mod((p + 1) as nat, s as nat);
        lemma_small_mod(p as nat, s as nat);
    }
    if p == 0 {
        lemma_mod_add_multiples_vanish(-1, s);
        lemma_small_mod((s - 1) as nat, s as nat);
        lemma_mod_self_0(s);
    } else {
        lemma_small_mod((p - 1) as nat, s as nat);
        lemma_small_mod(p as nat, s as nat);
    }
}

/// Moving Forward and then Backward from any well-formed starting state
/// returns the rover to its original position, with orientation unchanged.
pub proof fn lemma_forward_backward_round_trip(r: Rover)
    requires
        r.wf(),
    ensures
        spec_moved(spec_moved(r, DirectionY::Forward), DirectionY::Backward).position
            == r.position,
        spec_moved(spec_moved(r, DirectionY::Forward), DirectionY::Backward).orientation
            == r.orientation,
{
    let s = r.grid_size as int;
    let x = r.position.0 as int;
    let y = r.position.1 as int;
    lemma_wrap_round_trip(x, s);
    lemma_wrap_round_trip(y, s);
    lemma_small_mod(x as nat, s as nat);
    lemma_small_mod(y as nat, s as nat);
    lemma_mod_bound(x + 1, s);
    lemma_mod_bound(x - 1, s);
    lemma_mod_bound(y + 1, s);
    lemma_mod_bound(y - 1, s);
}

/// Wrap-around at the lower edge: whenever a step decrements an axis value
/// that stands at 0 — stepping Backward while facing North or East, or
/// Forward while facing South or West — the axis comes out at
/// `grid_size - 1`, never a negative value.
pub proof fn lemma_wrap_from_zero(r: Rover)
    requires
        r.wf(),
    ensures
        r.orientation == Cardinals::North && r.position.1 == 0 ==> spec_moved(
            r,
            DirectionY::Backward,
        ).position.1 == r.grid_size - 1,
        r.orientation == Cardinals::East && r.position.0 == 0 ==> spec_moved(
            r,
            DirectionY::Backward,
        ).position.0 == r.grid_size - 1,
        r.orientation == Cardinals::South && r.position.1 == 0 ==> spec_moved(
            r,
            DirectionY::Forward,
        ).position.1 == r.grid_size - 1,
        r.orientation == Cardinals::West && r.position.0 == 0 ==> spec_moved(
            r,
            DirectionY::Forward,
        ).position.0 == r.grid_size - 1,
{
    let s = r.grid_size as int;
    lemma_mod_add_multiples_vanish(-1, s);
    lemma_small_mod((s - 1) as nat, s as nat);
}

} // verus!
