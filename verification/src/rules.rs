//! The mathematical model of the automaton: Moore-neighborhood counting with
//! toroidal wrap, and the B3/S23 generation-transition rule.

use vstd::prelude::*;

use crate::grid::{cell, lemma_cell_index_in_range, AREA, HEIGHT, WIDTH};

verus! {

/// 1 when the neighbor of `(row, col)` at offset `(dr, dc)` is live, else 0.
/// Both coordinates wrap toroidally (Euclidean remainder).
pub open spec fn neighbor_bit(g: Seq<bool>, row: int, col: int, dr: int, dc: int) -> int {
    if cell(g, (row + dr) % (HEIGHT as int), (col + dc) % (WIDTH as int)) {
        1
    } else {
        0
    }
}

/// Number of live cells among the 8 Moore neighbors of `(row, col)`,
/// the center cell excluded, edges wrapping toroidally.
pub open spec fn live_neighbor_count(g: Seq<bool>, row: int, col: int) -> int {
    neighbor_bit(g, row, col, -1, -1) + neighbor_bit(g, row, col, -1, 0) + neighbor_bit(
        g,
        row,
        col,
        -1,
        1,
    ) + neighbor_bit(g, row, col, 0, -1) + neighbor_bit(g, row, col, 0, 1) + neighbor_bit(
        g,
        row,
        col,
        1,
        -1,
    ) + neighbor_bit(g, row, col, 1, 0) + neighbor_bit(g, row, col, 1, 1)
}

/// The canonical Game-of-Life rule for one cell, read against the pre-step
/// grid: a live cell survives with 2 or 3 live neighbors, a dead cell is
/// born with exactly 3, everything else dies or stays dead.
pub open spec fn next_cell(g: Seq<bool>, row: int, col: int) -> bool {
    if cell(g, row, col) {
        2 <= live_neighbor_count(g, row, col) <= 3
    } else {
        live_neighbor_count(g, row, col) == 3
    }
}

/// The row-major grid whose cell `(row, col)` is `f(row, col)`.
pub open spec fn grid_of(f: spec_fn(int, int) -> bool) -> Seq<bool> {
    Seq::new(AREA as nat, |k: int| f(k / (WIDTH as int), k % (WIDTH as int)))
}

/// The whole next generation, every cell judged against the same pre-step
/// grid (synchronous update).
pub open spec fn next_grid(g: Seq<bool>) -> Seq<bool> {
    grid_of(|row: int, col: int| next_cell(g, row, col))
}

/// Reading a `grid_of` construction back at valid coordinates yields the
/// defining function.
pub proof fn lemma_grid_of_cell(f: spec_fn(int, int) -> bool, row: int, col: int)
    requires
        0 <= row < HEIGHT,
        0 <= col < WIDTH,
    ensures
        cell(grid_of(f), row, col) == f(row, col),
{
    lemma_cell_index_in_range(row, col);
}

/// Reading the next generation back at valid coordinates yields the
/// transition rule applied there.
pub proof fn lemma_next_grid_cell(g: Seq<bool>, row: int, col: int)
    requires
        0 <= row < HEIGHT,
        0 <= col < WIDTH,
    ensures
        cell(next_grid(g), row, col) == next_cell(g, row, col),
{
    lemma_grid_of_cell(|r: int, c: int| next_cell(g, r, c), row, col);
}

/// Stepping is a pure function of the visible grid: two worlds that show
/// the same cells step to the same next generation.
pub proof fn lemma_step_deterministic(a: Seq<bool>, b: Seq<bool>)
    requires
        a == b,
    ensures
        next_grid(a) == next_grid(b),
{
}

} // verus!
