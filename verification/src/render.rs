//! Rendering a grid as text: one glyph per cell, one line per row.

use vstd::prelude::*;
use crate::grid::Grid;

verus! {

/// The glyph a cell is drawn as: a filled block when alive, a space when
/// dead.
pub open spec fn glyph(alive: bool) -> char {
    if alive {
        '█'
    } else {
        ' '
    }
}

/// The first `x` glyphs of row `y`: cells (0, y) .. (x - 1, y), left to
/// right.
pub open spec fn row_prefix_chars(g: Grid, y: int, x: int) -> Seq<char>
    decreases x,
{
    if x <= 0 {
        Seq::empty()
    } else {
        row_prefix_chars(g, y, x - 1).push(glyph(g.alive(x - 1, y)))
    }
}

/// The first `y` rendered lines: rows 0 .. y - 1 from the top, each a full
/// row of glyphs terminated by a line break.
pub open spec fn lines_prefix_chars(g: Grid, y: int) -> Seq<char>
    decreases y,
{
    if y <= 0 {
        Seq::empty()
    } else {
        lines_prefix_chars(g, y - 1) + row_prefix_chars(g, y - 1, g.width as int).push('\n')
    }
}

/// The full textual representation of `g`: `height` lines of `width` glyphs
/// each, rows in order top (y = 0) to bottom, each line terminated by a
/// line break.
pub open spec fn render_chars(g: Grid) -> Seq<char> {
    lines_prefix_chars(g, g.height as int)
}

/// Render `grid` as text: for each row from the top, one glyph per cell
/// from the left — a filled block for a live cell, a space for a dead one —
/// followed by a line break.
pub fn render_grid(grid: &Grid) -> (out: Vec<char>)
    requires
        grid.wf(),
    ensures
        out@ == render_chars(*grid),
{
    let mut out: Vec<char> = Vec::new();
    let mut y: usize = 0;
    while y < grid.height
        invariant
            grid.wf(),
            y <= grid.height,
            out@ == lines_prefix_chars(*grid, y as int),
        decreases grid.height - y,
    {
        let mut x: usize = 0;
        while x < grid.width
            invariant
                grid.wf(),
                y < grid.height,
                x <= grid.width,
                out@ == lines_prefix_chars(*grid, y as int) + row_prefix_chars(
                    *grid,
                    y as int,
                    x as int,
                ),
            decreases grid.width - x,
        {
            let c = if grid.get(x, y) {
                '█'
            } else {
                ' '
            };
            out.push(c);
            x = x + 1;
        }
        out.push('\n');
        y = y + 1;
    }
    out
}

} // verus!
