//! The command interpreter and the command sequence runner. A command is a
//! target cardinal direction: the rover turns to face it (if it is not
//! already facing it or its opposite) and advances one step, in a single
//! atomic action. If the candidate position after the step is an obstacle,
//! the whole action is discarded — rotation and translation alike — and the
//! rover is returned unchanged. The runner folds a sequence of such commands
//! through the interpreter left to right.

use vstd::prelude::*;

use crate::cardinal::{opposite, spec_next, spec_opposite, Cardinals};
use crate::grid::{has_obstacle, Grid};
use crate::rover::{spec_moved, spec_turned, DirectionX, DirectionY, Rover};

verus! {

/// The candidate rover for a target direction, before the obstacle veto:
/// a Forward step when the rover already faces the target, a Backward step
/// when it faces the opposite, and otherwise a turn towards the target
/// followed by a Forward step.
pub open spec fn spec_candidate(r: Rover, cardinal: Cardinals) -> Rover {
    if r.orientation == cardinal {
        spec_moved(r, DirectionY::Forward)
    } else if r.orientation == spec_opposite(cardinal) {
        spec_moved(r, DirectionY::Backward)
    } else if cardinal == spec_next(r.orientation) {
        spec_moved(spec_turned(r, DirectionX::Right), DirectionY::Forward)
    } else {
        spec_moved(spec_turned(r, DirectionX::Left), DirectionY::Forward)
    }
}

/// The outcome of one command: the candidate rover, unless its position is
/// a member of the grid's obstacle set, in which case the original rover —
/// the veto discards the rotation and the translation together.
pub open spec fn spec_command(r: Rover, cardinal: Cardinals, grid: Grid) -> Rover {
    let candidate = spec_candidate(r, cardinal);
    if grid.obstacles@.contains(candidate.position) {
        r
    } else {
        candidate
    }
}

/// Applies one target-direction command to the rover against the grid's
/// obstacle set and returns the resulting rover.
pub fn command(r: Rover, cardinal: Cardinals, grid: &Grid) -> (res: Rover)
    requires
        r.wf(),
    ensures
        res == spec_command(r, cardinal, *grid),
        res.wf(),
{
    let pending_rover = if r.orientation == cardinal {
        r.move_rover(DirectionY::Forward)
    } else if r.orientation == opposite(&cardinal) {
        r.move_rover(DirectionY::Backward)
    } else if cardinal == r.orientation.next() {
        r.turn_rover(DirectionX::Right).move_rover(DirectionY::Forward)
    } else {
        r.turn_rover(DirectionX::Left).move_rover(DirectionY::Forward)
    };
    if has_obstacle(grid, pending_rover.position) {
        r
    } else {
        pending_rover
    }
}

/// The obstacle veto is atomic: if the candidate position (post-turn,
/// post-move) for a command is an obstacle, the command leaves the rover
/// exactly as it was — both position and orientation equal the original's;
/// a turn is never partially applied.
pub proof fn lemma_obstacle_veto_atomic(r: Rover, cardinal: Cardinals, grid: Grid)
    requires
        grid.obstacles@.contains(spec_candidate(r, cardinal).position),
    ensures
        spec_command(r, cardinal, grid) == r,
        spec_command(r, cardinal, grid).position == r.position,
        spec_command(r, cardinal, grid).orientation == r.orientation,
{
}

/// The rover after folding the direction sequence through [`spec_command`]
/// left to right, with the grid held constant. The empty sequence leaves
/// the rover untouched.
pub open spec fn spec_run(dirs: Seq<Cardinals>, r: Rover, grid: Grid) -> Rover
    decreases dirs.len(),
{
    if dirs.len() == 0 {
        r
    } else {
        spec_command(spec_run(dirs.drop_last(), r, grid), dirs.last(), grid)
    }
}

/// `spec_run` over the empty direction sequence returns the input rover
/// unchanged: same name, orientation and position.
pub proof fn lemma_run_empty(r: Rover, grid: Grid)
    ensures
        spec_run(Seq::<Cardinals>::empty(), r, grid) == r,
{
}

/// Runs a batch of target-direction commands against the rover and grid,
/// threading the rover state through each step in input order.
pub fn commands(directions: Vec<Cardinals>, r: Rover, grid: &Grid) -> (res: Rover)
    requires
        r.wf(),
    ensures
        res == spec_run(directions@, r, *grid),
        res.wf(),
        directions@.len() == 0 ==> res == r,
{
    let mut inter_rover = r;
    let mut i: usize = 0;
    while i < directions.len()
        invariant
            i <= directions@.len(),
            inter_rover.wf(),
            inter_rover == spec_run(directions@.take(i as int), r, *grid),
        decreases directions@.len() - i,
    {
        inter_rover = command(inter_rover, directions[i], grid);
        proof {
            assert(directions@.take(i + 1 as int).drop_last() =~= directions@.take(i as int));
            assert(directions@.take(i + 1 as int).last() == directions@[i as int]);
        }
        i += 1;
    }
    proof {
        assert(directions@.take(directions@.len() as int) =~= directions@);
    }
    inter_rover
}

} // verus!

