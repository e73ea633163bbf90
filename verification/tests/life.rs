use conway::grid::{wrap, Grid, AREA, HEIGHT, WIDTH};
use conway::world::World;

fn grid_equal(a: &Grid, b: &Grid) -> bool {
    let mut i: usize = 0;
    while i < HEIGHT {
        let mut j: usize = 0;
        while j < WIDTH {
            if a.get(i, j) != b.get(i, j) {
                return false;
            }
            j += 1;
        }
        i += 1;
    }
    true
}

fn live_count(g: &Grid) -> usize {
    let mut n: usize = 0;
    let mut i: usize = 0;
    while i < HEIGHT {
        let mut j: usize = 0;
        while j < WIDTH {
            if g.get(i, j) {
                n += 1;
            }
            j += 1;
        }
        i += 1;
    }
    n
}

#[test]
fn wrap_maps_any_offset_into_range() {
    assert_eq!(wrap(5, 30), 5);
    assert_eq!(wrap(0, 30), 0);
    assert_eq!(wrap(29, 30), 29);
    assert_eq!(wrap(30, 30), 0);
    assert_eq!(wrap(-1, 30), 29);
    assert_eq!(wrap(-30, 30), 0);
    assert_eq!(wrap(-31, 30), 29);
    assert_eq!(wrap(61, 30), 1);
    assert_eq!(wrap(-1, 1), 0);
}

#[test]
fn corner_neighbor_count_includes_wrapped_cells() {
    let mut w = World::new();
    w.cells.set(HEIGHT - 1, WIDTH - 1, true);
    w.cells.set(HEIGHT - 1, 0, true);
    w.cells.set(0, WIDTH - 1, true);
    assert_eq!(w.live_neighbours(0, 0), 3);
    assert_eq!(w.live_neighbours(1, 1), 0);
}

#[test]
fn interior_neighbor_count_excludes_center() {
    let mut w = World::new();
    w.cells.set(10, 10, true);
    w.cells.set(9, 9, true);
    w.cells.set(9, 10, true);
    w.cells.set(11, 11, true);
    assert_eq!(w.live_neighbours(10, 10), 3);
}

#[test]
fn lone_cell_dies_of_underpopulation() {
    let mut w = World::new();
    w.cells.set(10, 10, true);
    let next = w.step();
    assert_eq!(live_count(&next.cells), 0);
}

#[test]
fn crowded_cell_dies_of_overpopulation() {
    let mut w = World::new();
    w.cells.set(10, 10, true);
    w.cells.set(9, 9, true);
    w.cells.set(9, 11, true);
    w.cells.set(11, 9, true);
    w.cells.set(11, 11, true);
    let next = w.step();
    assert!(!next.cells.get(10, 10));
}

#[test]
fn dead_cell_with_three_neighbors_is_born() {
    let mut w = World::new();
    w.cells.set(9, 9, true);
    w.cells.set(9, 11, true);
    w.cells.set(11, 10, true);
    assert!(!w.cells.get(10, 10));
    let next = w.step();
    assert!(next.cells.get(10, 10));
}

#[test]
fn block_is_a_still_life() {
    let mut w = World::new();
    w.cells.set(5, 5, true);
    w.cells.set(5, 6, true);
    w.cells.set(6, 5, true);
    w.cells.set(6, 6, true);
    let next = w.step();
    assert!(grid_equal(&next.cells, &w.cells));
}

#[test]
fn blinker_oscillates_with_period_two() {
    let mut w = World::new();
    w.cells.set(10, 9, true);
    w.cells.set(10, 10, true);
    w.cells.set(10, 11, true);
    let once = w.step();
    assert_eq!(live_count(&once.cells), 3);
    assert!(once.cells.get(9, 10));
    assert!(once.cells.get(10, 10));
    assert!(once.cells.get(11, 10));
    let twice = once.step();
    assert!(grid_equal(&twice.cells, &w.cells));
}

#[test]
fn empty_grid_is_a_fixed_point() {
    let w = World::new();
    let next = w.step();
    assert_eq!(live_count(&next.cells), 0);
}

#[test]
fn step_is_deterministic() {
    let mut w = World::new();
    w.cells.set(3, 4, true);
    w.cells.set(3, 5, true);
    w.cells.set(4, 4, true);
    w.cells.set(20, 21, true);
    w.cells.set(21, 21, true);
    w.cells.set(22, 21, true);
    let a = w.step();
    let b = w.step();
    assert!(grid_equal(&a.cells, &b.cells));
}

#[test]
fn step_preserves_pattern_and_cursor() {
    let mut w = World::new();
    let mut pattern = Grid::new();
    pattern.set(2, 3, true);
    pattern.set(17, 28, true);
    w.set_initial(&pattern);
    w.advance();
    w.advance();
    let next = w.step();
    assert!(grid_equal(&next.initial_cells, &w.initial_cells));
    assert_eq!(next.current_cell, w.current_cell);
}

#[test]
fn set_initial_installs_pattern_exactly() {
    let mut w = World::new();
    let mut pattern = Grid::new();
    pattern.set(0, 0, true);
    pattern.set(7, 13, true);
    pattern.set(29, 29, true);
    w.set_initial(&pattern);
    assert!(grid_equal(&w.initial_cells, &pattern));
    assert_eq!(live_count(&w.cells), 0);
    assert_eq!(w.current_cell, (0, 0));
}

#[test]
fn generate_only_turns_cells_on() {
    let mut full = Grid::new();
    let mut i: usize = 0;
    while i < HEIGHT {
        let mut j: usize = 0;
        while j < WIDTH {
            full.set(i, j, true);
            j += 1;
        }
        i += 1;
    }
    let mut w = World::new();
    w.set_initial(&full);
    w.generate();
    assert_eq!(live_count(&w.initial_cells), AREA);
    assert_eq!(live_count(&w.cells), 0);
    assert_eq!(w.current_cell, (0, 0));
}

#[test]
fn reveal_completes_after_one_tick_per_cell() {
    let mut w = World::new();
    let mut pattern = Grid::new();
    pattern.set(0, 0, true);
    pattern.set(7, 13, true);
    pattern.set(29, 29, true);
    w.set_initial(&pattern);
    let mut n: usize = 0;
    while n < AREA {
        assert!(!w.reveal_complete());
        w.advance();
        n += 1;
    }
    assert!(w.reveal_complete());
    assert!(grid_equal(&w.cells, &w.initial_cells));
    let before = w.duplicate();
    w.advance();
    assert!(w.reveal_complete());
    assert!(grid_equal(&w.cells, &before.cells));
    assert_eq!(w.current_cell, before.current_cell);
}

#[test]
fn reveal_visits_cells_in_row_major_order_exactly_once() {
    let mut w = World::new();
    let mut visited: Vec<(usize, usize)> = Vec::new();
    while !w.reveal_complete() {
        visited.push(w.current_cell);
        w.advance();
    }
    assert_eq!(visited.len(), AREA);
    let mut k: usize = 0;
    while k < AREA {
        assert_eq!(visited[k], (k / WIDTH, k % WIDTH));
        k += 1;
    }
}

#[test]
fn reveal_copies_each_cell_when_its_turn_comes() {
    let mut w = World::new();
    let mut pattern = Grid::new();
    pattern.set(0, 2, true);
    pattern.set(1, 0, true);
    w.set_initial(&pattern);
    w.advance();
    w.advance();
    assert!(!w.cells.get(0, 2));
    w.advance();
    assert!(w.cells.get(0, 2));
    assert!(!w.cells.get(1, 0));
    let mut n: usize = 0;
    while n < WIDTH - 3 {
        w.advance();
        n += 1;
    }
    assert!(!w.cells.get(1, 0));
    w.advance();
    assert!(w.cells.get(1, 0));
}

#[test]
fn duplicate_is_a_deep_copy() {
    let mut w = World::new();
    w.cells.set(4, 4, true);
    let copy = w.duplicate();
    w.cells.set(4, 4, false);
    assert!(copy.cells.get(4, 4));
    assert!(!w.cells.get(4, 4));
}
