use cgol::compute_next_state;
use cgol::count_neighbors;
use cgol::initialize_grid;
use cgol::render_grid;
use cgol::Grid;

#[test]
fn step_preserves_dimensions() {
    let mut g = Grid::new(7, 5);
    g.set(2, 2, true);
    g.set(3, 2, true);
    let next = compute_next_state(&g);
    assert_eq!(next.width, 7);
    assert_eq!(next.height, 5);
    assert_eq!(next.cells.len(), 5);
    for row in &next.cells {
        assert_eq!(row.len(), 7);
    }
}

#[test]
fn neighbor_count_in_range() {
    // All-alive grid: every cell has the maximum count of 8.
    let mut g = Grid::new(4, 4);
    for y in 0..4 {
        for x in 0..4 {
            g.set(x, y, true);
        }
    }
    for y in 0..4 {
        for x in 0..4 {
            let c = count_neighbors(&g, x, y);
            assert_eq!(c, 8);
        }
    }
    // All-dead grid: every cell has the minimum count of 0.
    let d = Grid::new(4, 4);
    for y in 0..4 {
        for x in 0..4 {
            assert_eq!(count_neighbors(&d, x, y), 0);
        }
    }
}

#[test]
fn toroidal_wraparound_counts_opposite_corner() {
    // Only (0, 0) is alive; the opposite corner must see it as its one
    // live neighbor, wrapping across both axes at once.
    let mut g = Grid::new(50, 30);
    g.set(0, 0, true);
    assert_eq!(count_neighbors(&g, 49, 29), 1);
}

#[test]
fn toroidal_wraparound_small_grid() {
    let mut g = Grid::new(3, 3);
    g.set(0, 0, true);
    assert_eq!(count_neighbors(&g, 2, 2), 1);
}

#[test]
fn all_dead_grid_is_fixed_point() {
    let g = Grid::new(50, 30);
    let next = compute_next_state(&g);
    for y in 0..30 {
        for x in 0..50 {
            assert!(!next.get(x, y));
        }
    }
}

#[test]
fn dead_cell_with_three_neighbors_becomes_alive() {
    // A 3x3 neighborhood embedded in a larger all-dead grid: the target at
    // (5, 5) is dead, its neighbors at relative offsets (-1, 0), (1, 0)
    // and (0, -1) are alive.
    let mut g = Grid::new(11, 11);
    g.set(4, 5, true);
    g.set(6, 5, true);
    g.set(5, 4, true);
    assert_eq!(count_neighbors(&g, 5, 5), 3);
    let next = compute_next_state(&g);
    assert!(next.get(5, 5));
}

#[test]
fn live_cell_with_one_neighbor_dies() {
    let mut g = Grid::new(11, 11);
    g.set(5, 5, true);
    g.set(6, 5, true);
    assert_eq!(count_neighbors(&g, 5, 5), 1);
    let next = compute_next_state(&g);
    assert!(!next.get(5, 5));
}

#[test]
fn live_cell_with_four_neighbors_dies() {
    let mut g = Grid::new(11, 11);
    g.set(5, 5, true);
    g.set(4, 5, true);
    g.set(6, 5, true);
    g.set(5, 4, true);
    g.set(5, 6, true);
    assert_eq!(count_neighbors(&g, 5, 5), 4);
    let next = compute_next_state(&g);
    assert!(!next.get(5, 5));
}

#[test]
fn live_cell_with_two_or_three_neighbors_survives() {
    let mut g2 = Grid::new(11, 11);
    g2.set(5, 5, true);
    g2.set(4, 5, true);
    g2.set(6, 5, true);
    assert_eq!(count_neighbors(&g2, 5, 5), 2);
    assert!(compute_next_state(&g2).get(5, 5));

    let mut g3 = Grid::new(11, 11);
    g3.set(5, 5, true);
    g3.set(4, 5, true);
    g3.set(6, 5, true);
    g3.set(5, 4, true);
    assert_eq!(count_neighbors(&g3, 5, 5), 3);
    assert!(compute_next_state(&g3).get(5, 5));
}

#[test]
fn initialize_with_zero_density_is_all_dead() {
    let g = initialize_grid(50, 30, 0, 5);
    assert_eq!(g.width, 50);
    assert_eq!(g.height, 30);
    for y in 0..30 {
        for x in 0..50 {
            assert!(!g.get(x, y));
        }
    }
}

#[test]
fn initialize_with_full_density_is_all_alive() {
    let g = initialize_grid(50, 30, 5, 5);
    assert_eq!(g.width, 50);
    assert_eq!(g.height, 30);
    for y in 0..30 {
        for x in 0..50 {
            assert!(g.get(x, y));
        }
    }
}

#[test]
fn step_is_deterministic_on_equal_grids() {
    let mut a = Grid::new(9, 7);
    let mut b = Grid::new(9, 7);
    let pattern = [(1usize, 1usize), (2, 1), (3, 1), (5, 4), (6, 5), (7, 3), (0, 0), (8, 6)];
    for &(x, y) in pattern.iter() {
        a.set(x, y, true);
        b.set(x, y, true);
    }
    let na = compute_next_state(&a);
    let nb = compute_next_state(&b);
    assert_eq!(na.width, nb.width);
    assert_eq!(na.height, nb.height);
    for y in 0..7 {
        for x in 0..9 {
            assert_eq!(na.get(x, y), nb.get(x, y));
        }
    }
}

#[test]
fn blinker_oscillates() {
    // The period-2 oscillator: a horizontal bar of three becomes vertical.
    let mut g = Grid::new(9, 9);
    g.set(3, 4, true);
    g.set(4, 4, true);
    g.set(5, 4, true);
    let next = compute_next_state(&g);
    for y in 0..9 {
        for x in 0..9 {
            let expect = x == 4 && (3..=5).contains(&y);
            assert_eq!(next.get(x, y), expect, "cell ({}, {})", x, y);
        }
    }
}

#[test]
fn render_draws_blocks_and_lines() {
    let mut g = Grid::new(3, 2);
    g.set(0, 0, true);
    g.set(2, 1, true);
    let text: String = render_grid(&g).into_iter().collect();
    assert_eq!(text, "█  \n  █\n");
}

#[test]
fn render_of_empty_cells_is_blank_lines() {
    let g = Grid::new(2, 3);
    let text: String = render_grid(&g).into_iter().collect();
    assert_eq!(text, "  \n  \n  \n");
}

#[test]
fn set_and_get_round_trip() {
    let mut g = Grid::new(5, 5);
    assert!(!g.get(3, 2));
    g.set(3, 2, true);
    assert!(g.get(3, 2));
    assert!(!g.get(2, 3));
    g.set(3, 2, false);
    assert!(!g.get(3, 2));
}
