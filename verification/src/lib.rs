//! A directional agent ("rover") moving on a bounded, wrap-around square
//! grid in response to cardinal-direction commands, while respecting static
//! obstacles.
//!
//! The crate is organised leaf-first: the orientation algebra on cardinal
//! directions, the grid and its obstacle query, the rover state with its two
//! motion primitives (move one step, turn 90 degrees), the command
//! interpreter that turns a target direction into a turn-then-move action
//! with an all-or-nothing obstacle veto, and the runner that folds a command
//! sequence through the interpreter.

pub mod cardinal;
pub mod decode;
pub mod greeting;
pub mod grid;
pub mod interpreter;
pub mod rover;
