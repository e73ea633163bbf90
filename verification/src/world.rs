//! The aggregate simulation state: the visible grid, the hidden initial
//! pattern, and the reveal cursor, with the operations that drive them.

use vstd::prelude::*;

use crate::grid::{cell_index, grid_wf, wrap, Grid, AREA, HEIGHT, WIDTH};
use crate::rules::{lemma_next_grid_cell, live_neighbor_count, neighbor_bit, next_grid};

verus! {

/// The mathematical model of a `World`: both grids as row-major sequences
/// and the reveal cursor as unbounded integers.
#[verifier::ext_equal]
pub ghost struct WorldView {
    pub cells: Seq<bool>,
    pub initial_cells: Seq<bool>,
    pub cursor_row: int,
    pub cursor_col: int,
}

/// A model is well formed when both grids have the fixed dimensions and the
/// cursor either points at a valid cell (reveal still active) or sits one
/// row past the end at `(HEIGHT, 0)` (reveal complete).
pub open spec fn view_wf(w: WorldView) -> bool {
    &&& grid_wf(w.cells)
    &&& grid_wf(w.initial_cells)
    &&& (w.cursor_row == HEIGHT && w.cursor_col == 0) || (0 <= w.cursor_row < HEIGHT && 0
        <= w.cursor_col < WIDTH)
}

/// Reveal is complete exactly when the cursor has moved past the last cell.
pub open spec fn reveal_complete_at(w: WorldView) -> bool {
    w.cursor_row == HEIGHT
}

/// The cursor as a row-major linear position in `[0, AREA]`.
pub open spec fn cursor_position(w: WorldView) -> int {
    cell_index(w.cursor_row, w.cursor_col)
}

/// One reveal tick. When complete it is the identity; otherwise it copies
/// the cell under the cursor from the hidden pattern into the visible grid
/// and moves the cursor one step in row-major order, reaching `(HEIGHT, 0)`
/// after the last cell.
pub open spec fn advance_step(w: WorldView) -> WorldView {
    if reveal_complete_at(w) {
        w
    } else {
        WorldView {
            cells: w.cells.update(
                cell_index(w.cursor_row, w.cursor_col),
                w.initial_cells[cell_index(w.cursor_row, w.cursor_col)],
            ),
            initial_cells: w.initial_cells,
            cursor_row: if w.cursor_col + 1 < WIDTH {
                w.cursor_row
            } else {
                w.cursor_row + 1
            },
            cursor_col: if w.cursor_col + 1 < WIDTH {
                w.cursor_col + 1
            } else {
                0
            },
        }
    }
}

/// The whole simulation state: the visible grid, the hidden target pattern,
/// and the position the next reveal tick will copy.
pub struct World {
    pub cells: Grid,
    pub initial_cells: Grid,
    pub current_cell: (usize, usize),
}

impl View for World {
    type V = WorldView;

    open spec fn view(&self) -> WorldView {
        WorldView {
            cells: self.cells@,
            initial_cells: self.initial_cells@,
            cursor_row: self.current_cell.0 as int,
            cursor_col: self.current_cell.1 as int,
        }
    }
}

/// Relies on rand::random::<bool>: draws one fair Boolean from the
/// thread-local generator. Nothing is promised of its value; the call
/// aborts only if the operating system's randomness source cannot be
/// initialized, which is treated as a fatal startup failure.
#[verifier::external_body]
fn random_bool() -> bool {
    rand::random()
}

/// Reads the toroidal neighbor of `(row, col)` at offset `(dr, dc)`.
fn neighbor_live(g: &Grid, row: usize, col: usize, dr: i64, dc: i64) -> (b: bool)
    requires
        g.wf(),
        row < HEIGHT,
        col < WIDTH,
        -1 <= dr <= 1,
        -1 <= dc <= 1,
    ensures
        b == (neighbor_bit(g@, row as int, col as int, dr as int, dc as int) == 1),
{
    let r = wrap(row as i64 + dr, HEIGHT);
    let c = wrap(col as i64 + dc, WIDTH);
    g.get(r, c)
}

impl World {
    /// Both grids have the fixed dimensions and the cursor is in range.
    pub open spec fn wf(&self) -> bool {
        view_wf(self@)
    }

    /// A fresh world: every cell of both grids dead, cursor at the origin.
    pub fn new() -> (w: World)
        ensures
            w.wf(),
            forall|k: int| 0 <= k < AREA ==> !w@.cells[k],
            forall|k: int| 0 <= k < AREA ==> !w@.initial_cells[k],
            w@.cursor_row == 0,
            w@.cursor_col == 0,
    {
        World { cells: Grid::new(), initial_cells: Grid::new(), current_cell: (0, 0) }
    }

    /// Randomizes the hidden pattern: each cell is switched on by an
    /// independent coin flip. Cells already on stay on; the visible grid
    /// and the cursor are untouched. The flips come from a thread-local
    /// generator, so nothing more can be said of which cells light up.
    pub fn generate(&mut self)
        requires
            old(self).wf(),
        ensures
            final(self).wf(),
            final(self)@.cells == old(self)@.cells,
            final(self)@.cursor_row == old(self)@.cursor_row,
            final(self)@.cursor_col == old(self)@.cursor_col,
            forall|k: int|
                0 <= k < AREA && old(self)@.initial_cells[k] ==> final(self)@.initial_cells[k],
    {
        let mut i: usize = 0;
        while i < HEIGHT
            invariant
                i <= HEIGHT,
                self.wf(),
                self@.cells == old(self)@.cells,
                self@.cursor_row == old(self)@.cursor_row,
                self@.cursor_col == old(self)@.cursor_col,
                forall|k: int|
                    0 <= k < AREA && old(self)@.initial_cells[k] ==> self@.initial_cells[k],
            decreases HEIGHT - i,
        {
            let mut j: usize = 0;
            while j < WIDTH
                invariant
                    i < HEIGHT,
                    j <= WIDTH,
                    self.wf(),
                    self@.cells == old(self)@.cells,
                    self@.cursor_row == old(self)@.cursor_row,
                    self@.cursor_col == old(self)@.cursor_col,
                    forall|k: int|
                        0 <= k < AREA && old(self)@.initial_cells[k] ==> self@.initial_cells[k],
                decreases WIDTH - j,
            {
                if random_bool() {
                    self.initial_cells.set(i, j, true);
                }
                j = j + 1;
            }
            i = i + 1;
        }
    }

    /// Installs a caller-chosen hidden pattern, so that deterministic
    /// patterns can be injected in place of the random generator. The
    /// visible grid and the cursor are untouched.
    pub fn set_initial(&mut self, pattern: &Grid)
        requires
            old(self).wf(),
            pattern.wf(),
        ensures
            final(self).wf(),
            final(self)@.initial_cells == pattern@,
            final(self)@.cells == old(self)@.cells,
            final(self)@.cursor_row == old(self)@.cursor_row,
            final(self)@.cursor_col == old(self)@.cursor_col,
    {
        self.initial_cells = pattern.duplicate();
    }

    /// Counts the live Moore neighbors of `(row, col)` in the visible grid,
    /// wrapping toroidally at every edge; the center cell is excluded, so
    /// the count is at most 8.
    pub fn live_neighbours(&self, row: usize, col: usize) -> (n: u8)
        requires
            self.wf(),
            row < HEIGHT,
            col < WIDTH,
        ensures
            n == live_neighbor_count(self@.cells, row as int, col as int),
            n <= 8,
    {
        let mut n: u8 = 0;
        if neighbor_live(&self.cells, row, col, -1, -1) {
            n = n + 1;
        }
        if neighbor_live(&self.cells, row, col, -1, 0) {
            n = n + 1;
        }
        if neighbor_live(&self.cells, row, col, -1, 1) {
            n = n + 1;
        }
        if neighbor_live(&self.cells, row, col, 0, -1) {
            n = n + 1;
        }
        if neighbor_live(&self.cells, row, col, 0, 1) {
            n = n + 1;
        }
        if neighbor_live(&self.cells, row, col, 1, -1) {
            n = n + 1;
        }
        if neighbor_live(&self.cells, row, col, 1, 0) {
            n = n + 1;
        }
        if neighbor_live(&self.cells, row, col, 1, 1) {
            n = n + 1;
        }
        n
    }

    /// One synchronous generation step. Returns a new world whose visible
    /// grid is the next generation of this one's, every cell judged against
    /// the pre-step grid; the hidden pattern and the reveal cursor are
    /// carried through unchanged, and this world itself is not mutated.
    pub fn step(&self) -> (w: World)
        requires
            self.wf(),
        ensures
            w.wf(),
            w@.cells == next_grid(self@.cells),
            w@.initial_cells == self@.initial_cells,
            w@.cursor_row == self@.cursor_row,
            w@.cursor_col == self@.cursor_col,
    {
        let ghost g = self@.cells;
        let mut new_cells: Vec<bool> = Vec::new();
        let mut i: usize = 0;
        while i < HEIGHT
            invariant
                self.wf(),
                g == self@.cells,
                i <= HEIGHT,
                new_cells@.len() == i * WIDTH,
                forall|m: int| 0 <= m < new_cells@.len() ==> new_cells@[m] == next_grid(g)[m],
            decreases HEIGHT - i,
        {
            let mut j: usize = 0;
            while j < WIDTH
                invariant
                    self.wf(),
                    g == self@.cells,
                    i < HEIGHT,
                    j <= WIDTH,
                    new_cells@.len() == i * WIDTH + j,
                    forall|m: int| 0 <= m < new_cells@.len() ==> new_cells@[m] == next_grid(g)[m],
                decreases WIDTH - j,
            {
                let n = self.live_neighbours(i, j);
                let here = self.cells.get(i, j);
                let alive = match (here, n) {
                    (true, x) if x < 2 || x > 3 => false,
                    (false, 3) => true,
                    (otherwise, _) => otherwise,
                };
                proof {
                    lemma_next_grid_cell(g, i as int, j as int);
                    assert(alive == next_grid(g)[cell_index(i as int, j as int)]);
                }
                new_cells.push(alive);
                j = j + 1;
            }
            i = i + 1;
        }
        proof {
            assert(new_cells@ =~= next_grid(g));
        }
        World {
            cells: Grid { cells: new_cells },
            initial_cells: self.initial_cells.duplicate(),
            current_cell: self.current_cell,
        }
    }

    /// A deep copy with a provably identical model.
    pub fn duplicate(&self) -> (w: World)
        ensures
            w@ == self@,
    {
        let w = World {
            cells: self.cells.duplicate(),
            initial_cells: self.initial_cells.duplicate(),
            current_cell: self.current_cell,
        };
        proof {
            assert(w@ =~= self@);
        }
        w
    }

    /// True once every cell has been revealed and further ticks are inert.
    pub fn reveal_complete(&self) -> (b: bool)
        requires
            self.wf(),
        ensures
            b == reveal_complete_at(self@),
    {
        self.current_cell.0 >= HEIGHT
    }

    /// One reveal tick, mutating this world in place exactly as
    /// `advance_step` describes: a no-op once complete, otherwise it copies
    /// the cell under the cursor from the hidden pattern and moves the
    /// cursor one step forward in row-major order.
    pub fn advance(&mut self)
        requires
            old(self).wf(),
        ensures
            final(self).wf(),
            final(self)@ == advance_step(old(self)@),
    {
        let i: usize = self.current_cell.0;
        let j: usize = self.current_cell.1;
        if i < HEIGHT {
            let v = self.initial_cells.get(i, j);
            self.cells.set(i, j, v);
            if j + 1 < WIDTH {
                self.current_cell = (i, j + 1);
            } else {
                self.current_cell = (i + 1, 0);
            }
        }
        proof {
            assert(self@ =~= advance_step(old(self)@));
        }
    }
}

} // verus!
