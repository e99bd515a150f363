//! Conway's Game of Life on a fixed-size toroidal grid.
//!
//! The grid is a rectangular field of boolean cells. Neighbor lookups wrap
//! around both edges, so the grid is topologically a torus. Each generation
//! is computed from a frozen snapshot of the previous one by the standard
//! rules: a live cell with exactly 2 or 3 live neighbors survives, a dead
//! cell with exactly 3 live neighbors is born, every other cell is dead.

use vstd::prelude::*;

mod grid;
mod life;
mod init;
mod render;

pub use grid::Grid;
pub use life::count_neighbors;
pub use life::compute_next_state;
pub use init::initialize_grid;
pub use render::render_grid;

verus! {

/// Width of the grid the program animates.
pub const WIDTH: usize = 50;

/// Height of the grid the program animates.
pub const HEIGHT: usize = 30;

/// Initial live density as a fraction: `DENSITY_NUM / DENSITY_DEN` = 1/5.
pub const DENSITY_NUM: u64 = 1;

/// Denominator of the initial live density fraction.
pub const DENSITY_DEN: u64 = 5;

} // verus!
