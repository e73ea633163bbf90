//! The fixed-size toroidal grid: dimensions, wrap-around addressing, and a
//! value-semantic boolean matrix stored in row-major order.

use vstd::prelude::*;

verus! {

/// Number of rows in every grid.
pub const HEIGHT: usize = 30;

/// Number of columns in every grid.
pub const WIDTH: usize = 30;

/// Total number of cells in every grid.
pub const AREA: usize = HEIGHT * WIDTH;

/// Row-major index of cell `(row, col)`.
pub open spec fn cell_index(row: int, col: int) -> int {
    row * (WIDTH as int) + col
}

/// The cell `(row, col)` of a row-major grid sequence.
pub open spec fn cell(g: Seq<bool>, row: int, col: int) -> bool {
    g[cell_index(row, col)]
}

/// A grid is well formed when it holds exactly `HEIGHT * WIDTH` cells.
pub open spec fn grid_wf(g: Seq<bool>) -> bool {
    g.len() == AREA
}

/// Maps any (possibly negative) coordinate into `[0, dimension)` by
/// wrap-around, so that the grid behaves as a torus.
///
/// In specifications this is exactly the Euclidean remainder, so the result
/// is always in range: no Moore offset can ever address off the grid.
pub fn wrap(index: i64, dimension: usize) -> (r: usize)
    requires
        0 < dimension <= 0x4000_0000,
        -0x4000_0000 <= index <= 0x4000_0000,
    ensures
        r == index as int % dimension as int,
        r < dimension,
{
    let d = dimension as i64;
    let shifted = index + 0x4000_0000i64 * d;
    let m = shifted % d;
    proof {
        vstd::arithmetic::div_mod::lemma_mod_multiples_vanish(
            0x4000_0000,
            index as int,
            d as int,
        );
    }
    m as usize
}

/// A fixed-size boolean matrix with value semantics: cloning or duplicating
/// a grid yields a deep copy sharing no state with the original.
pub struct Grid {
    pub cells: Vec<bool>,
}

impl View for Grid {
    type V = Seq<bool>;

    open spec fn view(&self) -> Seq<bool> {
        self.cells@
    }
}

impl Grid {
    /// Dimensions are fixed, so well-formedness is just the cell count.
    pub open spec fn wf(&self) -> bool {
        grid_wf(self@)
    }

    /// A grid with every cell dead.
    pub fn new() -> (g: Grid)
        ensures
            g.wf(),
            forall|k: int| 0 <= k < AREA ==> !g@[k],
    {
        let mut cells: Vec<bool> = Vec::new();
        let mut k: usize = 0;
        while k < AREA
            invariant
                k <= AREA,
                cells@.len() == k,
                forall|m: int| 0 <= m < k ==> !cells@[m],
            decreases AREA - k,
        {
            cells.push(false);
            k = k + 1;
        }
        Grid { cells }
    }

    /// Reads cell `(row, col)`.
    pub fn get(&self, row: usize, col: usize) -> (b: bool)
        requires
            self.wf(),
            row < HEIGHT,
            col < WIDTH,
        ensures
            b == cell(self@, row as int, col as int),
    {
        self.cells[row * WIDTH + col]
    }

    /// Writes cell `(row, col)`, leaving every other cell unchanged.
    pub fn set(&mut self, row: usize, col: usize, value: bool)
        requires
            old(self).wf(),
            row < HEIGHT,
            col < WIDTH,
        ensures
            final(self).wf(),
            final(self)@ == old(self)@.update(cell_index(row as int, col as int), value),
    {
        self.cells[row * WIDTH + col] = value;
    }

    /// A deep copy with provably identical contents.
    pub fn duplicate(&self) -> (g: Grid)
        ensures
            g@ == self@,
    {
        let copy = self.cells.clone();
        proof {
            assert(copy@ =~= self.cells@);
        }
        Grid { cells: copy }
    }
}

/// Valid coordinates give a row-major index inside the grid.
pub proof fn lemma_cell_index_in_range(row: int, col: int)
    requires
        0 <= row < HEIGHT,
        0 <= col < WIDTH,
    ensures
        0 <= cell_index(row, col) < AREA,
        cell_index(row, col) / (WIDTH as int) == row,
        cell_index(row, col) % (WIDTH as int) == col,
{
    vstd::arithmetic::div_mod::lemma_fundamental_div_mod_converse(
        cell_index(row, col),
        WIDTH as int,
        row,
        col,
    );
}

} // verus!
