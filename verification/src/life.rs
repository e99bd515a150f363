//! Neighbor counting and the generation step, with the rules they obey.

use vstd::prelude::*;
use vstd::arithmetic::div_mod::lemma_mod_add_multiples_vanish;
use vstd::arithmetic::div_mod::lemma_mod_bound;
use vstd::arithmetic::div_mod::lemma_mod_self_0;
use vstd::arithmetic::div_mod::lemma_small_mod;
use crate::grid::Grid;

verus! {

/// A cell's contribution to a neighbor count: 1 if alive, 0 if dead.
pub open spec fn count_cell(b: bool) -> int {
    if b {
        1
    } else {
        0
    }
}

/// The number of live cells among the eight toroidal neighbors of `(x, y)`:
/// the cells at offsets {-1, 0, +1} in each axis, excluding (0, 0) itself,
/// with each coordinate wrapped modulo the grid dimension. On a 1- or 2-wide
/// axis distinct offsets reach the same cell, which is then counted once per
/// offset.
pub open spec fn neighbor_count(g: Grid, x: int, y: int) -> int
    recommends
        g.wf(),
        g.in_bounds(x, y),
{
    let w = g.width as int;
    let h = g.height as int;
    let xm = (x - 1) % w;
    let xp = (x + 1) % w;
    let ym = (y - 1) % h;
    let yp = (y + 1) % h;
    count_cell(g.alive(xm, ym)) + count_cell(g.alive(x, ym)) + count_cell(g.alive(xp, ym))
        + count_cell(g.alive(xm, y)) + count_cell(g.alive(xp, y)) + count_cell(g.alive(xm, yp))
        + count_cell(g.alive(x, yp)) + count_cell(g.alive(xp, yp))
}

/// Conway's rule: a cell is alive in the next generation exactly when it is
/// alive with 2 neighbors, or has 3 neighbors regardless of its own state.
pub open spec fn next_state(alive: bool, neighbors: int) -> bool {
    (alive && neighbors == 2) || neighbors == 3
}

/// The state that the cell at `(x, y)` takes in the generation after `g`.
pub open spec fn step_cell(g: Grid, x: int, y: int) -> bool {
    next_state(g.alive(x, y), neighbor_count(g, x, y))
}

/// `h` is the generation after `g`: the same dimensions, and every cell of
/// `h` is the stepped state of the corresponding cell of `g`, all computed
/// from the frozen snapshot `g`.
pub open spec fn is_step(g: Grid, h: Grid) -> bool {
    &&& h.wf()
    &&& h.width == g.width
    &&& h.height == g.height
    &&& forall|x: int, y: int| g.in_bounds(x, y) ==> h.alive(x, y) == step_cell(g, x, y)
}

/// Facts about wrapping one coordinate by one step in either direction
/// around an axis of length `w`: both wrapped values stay on the axis, the
/// unsigned encoding of offset -1 as `w - 1` agrees with the mathematical
/// `(x - 1) % w`, and the wrapped values are what the torus picture says.
proof fn lemma_wrap(x: int, w: int)
    requires
        0 <= x < w,
    ensures
        0 <= (x - 1) % w < w,
        0 <= (x + 1) % w < w,
        (x + (w - 1)) % w == (x - 1) % w,
        x == 0 ==> (x - 1) % w == w - 1,
        x > 0 ==> (x - 1) % w == x - 1,
        x == w - 1 ==> (x + 1) % w == 0,
        x < w - 1 ==> (x + 1) % w == x + 1,
{
    lemma_mod_bound(x - 1, w);
    lemma_mod_bound(x + 1, w);
    lemma_mod_add_multiples_vanish(x - 1, w);
    if x == 0 {
        lemma_small_mod((w - 1) as nat, w as nat);
    } else {
        lemma_small_mod((x - 1) as nat, w as nat);
    }
    if x == w - 1 {
        lemma_mod_self_0(w);
    } else {
        lemma_small_mod((x + 1) as nat, w as nat);
    }
}

/// A neighbor count is always between 0 and 8: it is a sum of eight terms,
/// each 0 or 1.
pub proof fn lemma_neighbor_count_in_range(g: Grid, x: int, y: int)
    requires
        g.wf(),
        g.in_bounds(x, y),
    ensures
        0 <= neighbor_count(g, x, y) <= 8,
{
}

/// Count the live cells among the eight toroidal neighbors of `(x, y)`.
/// The offset -1 is realized as dimension - 1 added then taken modulo, as
/// unsigned arithmetic demands.
pub fn count_neighbors(grid: &Grid, x: usize, y: usize) -> (count: usize)
    requires
        grid.wf(),
        grid.in_bounds(x as int, y as int),
    ensures
        count == neighbor_count(*grid, x as int, y as int),
        count <= 8,
{
    let w = grid.width;
    let h = grid.height;
    let xm = (x + (w - 1)) % w;
    let xp = (x + 1) % w;
    let ym = (y + (h - 1)) % h;
    let yp = (y + 1) % h;
    proof {
        lemma_wrap(x as int, w as int);
        lemma_wrap(y as int, h as int);
    }
    let mut count: usize = 0;
    if grid.get(xm, ym) {
        count = count + 1;
    }
    if grid.get(x, ym) {
        count = count + 1;
    }
    if grid.get(xp, ym) {
        count = count + 1;
    }
    if grid.get(xm, y) {
        count = count + 1;
    }
    if grid.get(xp, y) {
        count = count + 1;
    }
    if grid.get(xm, yp) {
        count = count + 1;
    }
    if grid.get(x, yp) {
        count = count + 1;
    }
    if grid.get(xp, yp) {
        count = count + 1;
    }
    count
}

/// Produce the next generation of `grid`: a wholly new grid of the same
/// dimensions in which every cell's state is `step_cell` of the input, all
/// neighbor counts taken from the frozen input snapshot.
pub fn compute_next_state(grid: &Grid) -> (next: Grid)
    requires
        grid.wf(),
    ensures
        is_step(*grid, next),
{
    let mut next = Grid::new(grid.width, grid.height);
    let mut y: usize = 0;
    while y < grid.height
        invariant
            grid.wf(),
            next.wf(),
            next.width == grid.width,
            next.height == grid.height,
            y <= grid.height,
            forall|i: int, j: int|
                0 <= i < grid.width && 0 <= j < y
                    ==> #[trigger] next.alive(i, j) == step_cell(*grid, i, j),
        decreases grid.height - y,
    {
        let mut x: usize = 0;
        while x < grid.width
            invariant
                grid.wf(),
                next.wf(),
                next.width == grid.width,
                next.height == grid.height,
                y < grid.height,
                x <= grid.width,
                forall|i: int, j: int|
                    0 <= i < grid.width && 0 <= j < y
                        ==> #[trigger] next.alive(i, j) == step_cell(*grid, i, j),
                forall|i: int|
                    0 <= i < x ==> #[trigger] next.alive(i, y as int) == step_cell(
                        *grid,
                        i,
                        y as int,
                    ),
            decreases grid.width - x,
        {
            let alive = grid.get(x, y);
            let neighbors = count_neighbors(grid, x, y);
            let new_alive = (alive && neighbors == 2) || neighbors == 3;
            next.set(x, y, new_alive);
            x = x + 1;
        }
        y = y + 1;
    }
    next
}

/// Fixed point: stepping the all-dead grid yields the all-dead grid. Every
/// neighbor count in an all-dead grid is 0, and a dead cell with 0 neighbors
/// stays dead.
pub proof fn lemma_all_dead_fixed_point(g: Grid, h: Grid)
    requires
        g.wf(),
        g.all_dead(),
        is_step(g, h),
    ensures
        h.all_dead(),
{
    assert forall|x: int, y: int| h.in_bounds(x, y) implies !h.alive(x, y) by {
        lemma_wrap(x, g.width as int);
        lemma_wrap(y, g.height as int);
        assert(neighbor_count(g, x, y) == 0);
    }
}

/// Overpopulation: a live cell with 4 or more live neighbors is dead in the
/// next generation.
pub proof fn lemma_overpopulation(g: Grid, x: int, y: int)
    requires
        g.wf(),
        g.in_bounds(x, y),
        g.alive(x, y),
        neighbor_count(g, x, y) >= 4,
    ensures
        !step_cell(g, x, y),
{
}

/// Survival: a live cell with exactly 2 or exactly 3 live neighbors is alive
/// in the next generation.
pub proof fn lemma_survival(g: Grid, x: int, y: int)
    requires
        g.wf(),
        g.in_bounds(x, y),
        g.alive(x, y),
        neighbor_count(g, x, y) == 2 || neighbor_count(g, x, y) == 3,
    ensures
        step_cell(g, x, y),
{
}

/// Toroidal wraparound: in a grid whose only live cell is (0, 0), the cell
/// at the opposite corner (width - 1, height - 1) counts it as its one live
/// neighbor, across both edges at once. Axes shorter than 3 are excluded:
/// there a single live cell is reached by more than one offset and counted
/// more than once.
pub proof fn lemma_toroidal_wraparound(g: Grid)
    requires
        g.wf(),
        g.width >= 3,
        g.height >= 3,
        g.alive(0, 0),
        forall|x: int, y: int| g.in_bounds(x, y) && !(x == 0 && y == 0) ==> !g.alive(x, y),
    ensures
        neighbor_count(g, g.width - 1, g.height - 1) == 1,
{
    let w = g.width as int;
    let h = g.height as int;
    lemma_wrap(w - 1, w);
    lemma_wrap(h - 1, h);
    assert(((w - 1) - 1) % w == w - 2);
    assert(((w - 1) + 1) % w == 0);
    assert(((h - 1) - 1) % h == h - 2);
    assert(((h - 1) + 1) % h == 0);
}

/// Neighbor counts agree on deep-equal grids: the count reads only cell
/// states at in-bounds coordinates, which the two grids share.
proof fn lemma_neighbor_count_same(g1: Grid, g2: Grid, x: int, y: int)
    requires
        g1.wf(),
        g2.wf(),
        g1.same_cells(g2),
        g1.in_bounds(x, y),
    ensures
        neighbor_count(g1, x, y) == neighbor_count(g2, x, y),
{
    lemma_wrap(x, g1.width as int);
    lemma_wrap(y, g1.height as int);
}

/// Determinism of the step: two generations computed from deep-equal grids
/// are deep-equal. Each cell of the result is pinned to `step_cell` of the
/// input, which depends only on the input's dimensions and cell states.
pub proof fn lemma_step_deterministic(g1: Grid, g2: Grid, h1: Grid, h2: Grid)
    requires
        g1.wf(),
        g2.wf(),
        g1.same_cells(g2),
        is_step(g1, h1),
        is_step(g2, h2),
    ensures
        h1.same_cells(h2),
{
    assert forall|x: int, y: int| h1.in_bounds(x, y) implies h1.alive(x, y) == h2.alive(
        x,
        y,
    ) by {
        lemma_neighbor_count_same(g1, g2, x, y);
    }
}

} // verus!
