//! The two-dimensional field of boolean cell states that one generation holds.

use vstd::prelude::*;

verus! {

/// One generation of the simulation: a rectangular field of cells, each
/// alive (`true`) or dead (`false`). Rows are indexed by `y` from the top,
/// cells within a row by `x` from the left.
pub struct Grid {
    pub width: usize,
    pub height: usize,
    pub cells: Vec<Vec<bool>>,
}

impl Grid {
    /// Well-formedness: the cell matrix has exactly `height` rows of exactly
    /// `width` cells each, and both dimensions are small enough that toroidal
    /// index arithmetic cannot overflow.
    pub open spec fn wf(self) -> bool {
        &&& self.cells.len() == self.height
        &&& forall|y: int| 0 <= y < self.height ==> #[trigger] self.cells[y].len() == self.width
        &&& self.width < usize::MAX / 2
        &&& self.height < usize::MAX / 2
    }

    /// The state of the cell at column `x`, row `y`.
    pub open spec fn alive(self, x: int, y: int) -> bool {
        self.cells[y][x]
    }

    /// `(x, y)` names a cell of this grid.
    pub open spec fn in_bounds(self, x: int, y: int) -> bool {
        0 <= x < self.width && 0 <= y < self.height
    }

    /// Every cell of the grid is dead.
    pub open spec fn all_dead(self) -> bool {
        forall|x: int, y: int| self.in_bounds(x, y) ==> !self.alive(x, y)
    }

    /// Every cell of the grid is alive.
    pub open spec fn all_alive(self) -> bool {
        forall|x: int, y: int| self.in_bounds(x, y) ==> self.alive(x, y)
    }

    /// Two grids are deep-equal: same dimensions and the same state in every
    /// cell.
    pub open spec fn same_cells(self, other: Grid) -> bool {
        &&& self.width == other.width
        &&& self.height == other.height
        &&& forall|x: int, y: int| self.in_bounds(x, y) ==> self.alive(x, y) == other.alive(x, y)
    }

    /// A fresh all-dead grid of the given dimensions.
    pub fn new(width: usize, height: usize) -> (g: Grid)
        requires
            width < usize::MAX / 2,
            height < usize::MAX / 2,
        ensures
            g.wf(),
            g.width == width,
            g.height == height,
            g.all_dead(),
    {
        let mut cells: Vec<Vec<bool>> = Vec::new();
        let mut y: usize = 0;
        while y < height
            invariant
                y <= height,
                cells.len() == y,
                forall|r: int| 0 <= r < y ==> #[trigger] cells[r].len() == width,
                forall|r: int, c: int|
                    0 <= r < y && 0 <= c < width ==> !(#[trigger] cells[r][c]),
            decreases height - y,
        {
            let mut row: Vec<bool> = Vec::new();
            let mut x: usize = 0;
            while x < width
                invariant
                    x <= width,
                    row.len() == x,
                    forall|c: int| 0 <= c < x ==> !(#[trigger] row[c]),
                decreases width - x,
            {
                row.push(false);
                x = x + 1;
            }
            cells.push(row);
            y = y + 1;
        }
        Grid { width, height, cells }
    }

    /// Read the cell at column `x`, row `y`.
    pub fn get(&self, x: usize, y: usize) -> (b: bool)
        requires
            self.wf(),
            self.in_bounds(x as int, y as int),
        ensures
            b == self.alive(x as int, y as int),
    {
        proof {
            assert(self.cells[y as int].len() == self.width);
        }
        self.cells[y][x]
    }

    /// Set the cell at column `x`, row `y` to `alive`; every other cell and
    /// the dimensions are unchanged.
    pub fn set(&mut self, x: usize, y: usize, alive: bool)
        requires
            old(self).wf(),
            old(self).in_bounds(x as int, y as int),
        ensures
            final(self).wf(),
            final(self).width == old(self).width,
            final(self).height == old(self).height,
            final(self).alive(x as int, y as int) == alive,
            forall|i: int, j: int|
                old(self).in_bounds(i, j) && !(i == x && j == y)
                    ==> final(self).alive(i, j) == old(self).alive(i, j),
    {
        proof {
            assert(old(self).cells[y as int].len() == self.width);
        }
        self.cells[y][x] = alive;
        proof {
            assert(forall|r: int|
                0 <= r < self.height && r != y
                    ==> self.cells[r] == old(self).cells[r]);
            assert(self.cells[y as int].len() == old(self).cells[y as int].len());
        }
    }
}

} // verus!
