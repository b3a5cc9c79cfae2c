//! The grid model: a fixed square extent and a set of obstacle coordinates.
//! The grid only answers obstacle-occupancy queries; wrap-around of
//! coordinates is the motion primitives' responsibility, so positions
//! reaching the query are already valid wrapped coordinates.

use vstd::prelude::*;

verus! {

/// A square grid of extent `size` (width = height = `size`) holding a set of
/// obstacle coordinates, each assumed to lie within `[0, size)` on both
/// axes. The obstacle set is immutable for the duration of a command
/// sequence: the grid is read-only input to every command evaluation.
pub struct Grid {
    pub size: i32,
    pub obstacles: Vec<(i32, i32)>,
}

impl Grid {
    /// A grid is well formed when its extent is positive; a zero or negative
    /// extent would leave the wrap-around computation undefined.
    pub open spec fn wf(&self) -> bool {
        0 < self.size
    }
}

/// Returns whether `pos` is a member of the grid's obstacle set. Pure query,
/// no side effects.
pub fn has_obstacle(grid: &Grid, pos: (i32, i32)) -> (r: bool)
    ensures
        r == grid.obstacles@.contains(pos),
{
    let mut i: usize = 0;
    while i < grid.obstacles.len()
        invariant
            i <= grid.obstacles@.len(),
            forall|j: int| 0 <= j < i ==> grid.obstacles@[j] != pos,
        decreases grid.obstacles@.len() - i,
    {
        let ob = grid.obstacles[i];
        if ob.0 == pos.0 && ob.1 == pos.1 {
            assert(grid.obstacles@[i as int] == pos);
            return true;
        }
        i += 1;
    }
    false
}

} // verus!
