//! Random initialization: populating a grid with independent random cells.

use vstd::prelude::*;
use rand::Rng;
use crate::grid::Grid;

verus! {

#[verifier::external_type_specification]
#[verifier::external_body]
pub struct ExThreadRng(rand::rngs::ThreadRng);

/// Relies on rand::thread_rng: retrieves the lazily-initialized
/// thread-local random number generator, seeded by the system.
#[verifier::external_body]
fn fresh_rng() -> rand::rngs::ThreadRng {
    rand::thread_rng()
}

/// Relies on rand's Rng::gen_range, called on the half-open range
/// 0..bound: it returns a uniform sample from that range, and panics only
/// when the range is empty, which `bound > 0` rules out. Nothing more is
/// promised of the draw: it is random.
#[verifier::external_body]
fn random_below(rng: &mut rand::rngs::ThreadRng, bound: u64) -> (r: u64)
    requires
        bound > 0,
    ensures
        r < bound,
{
    rng.gen_range(0..bound)
}

/// Populate a fresh `width` × `height` grid in which each cell is set from
/// an independent uniform draw out of [0, density_den): the cell is alive
/// exactly when its draw falls below `density_num`, so each cell is alive
/// with probability density_num / density_den. A zero density yields the
/// all-dead grid; a density of one yields the all-alive grid.
pub fn initialize_grid(width: usize, height: usize, density_num: u64, density_den: u64) -> (g:
    Grid)
    requires
        width < usize::MAX / 2,
        height < usize::MAX / 2,
        0 < density_den,
        density_num <= density_den,
    ensures
        g.wf(),
        g.width == width,
        g.height == height,
        density_num == 0 ==> g.all_dead(),
        density_num == density_den ==> g.all_alive(),
{
    let mut rng = fresh_rng();
    let mut g = Grid::new(width, height);
    let mut y: usize = 0;
    while y < height
        invariant
            g.wf(),
            g.width == width,
            g.height == height,
            y <= height,
            0 < density_den,
            density_num <= density_den,
            density_num == 0 ==> g.all_dead(),
            density_num == density_den ==> forall|i: int, j: int|
                0 <= i < width && 0 <= j < y ==> #[trigger] g.alive(i, j),
        decreases height - y,
    {
        let mut x: usize = 0;
        while x < width
            invariant
                g.wf(),
                g.width == width,
                g.height == height,
                y < height,
                x <= width,
                0 < density_den,
                density_num <= density_den,
                density_num == 0 ==> g.all_dead(),
                density_num == density_den ==> forall|i: int, j: int|
                    0 <= i < width && 0 <= j < y ==> #[trigger] g.alive(i, j),
                density_num == density_den ==> forall|i: int|
                    0 <= i < x ==> #[trigger] g.alive(i, y as int),
            decreases width - x,
        {
            let draw = random_below(&mut rng, density_den);
            let cell = draw < density_num;
            g.set(x, y, cell);
            x = x + 1;
        }
        y = y + 1;
    }
    g
}

} // verus!
