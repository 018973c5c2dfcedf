//! Orthogonal step directions on a 2D grid.

use vstd::prelude::*;

verus! {

/// The four orthogonal step directions on a 2D grid. `Left` and `Right`
/// move along the x axis (columns), `Up` and `Down` along the y axis (rows);
/// `Up` is towards row 0.
#[derive(PartialEq, Eq, Structural, Clone, Copy, Hash, Debug)]
pub enum Direction4 {
    Left,
    Up,
    Right,
    Down,
}

} // verus!
