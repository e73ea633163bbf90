//! Laws of the generation step on whole patterns: the empty grid is a fixed
//! point, an isolated 2x2 block is a still life, and an isolated 3-cell
//! blinker oscillates with period two.

use vstd::prelude::*;

use crate::grid::{cell, grid_wf, AREA, HEIGHT, WIDTH};
use crate::rules::{lemma_next_grid_cell, live_neighbor_count, neighbor_bit, next_cell, next_grid};

verus! {

/// Every cell of the grid is dead.
pub open spec fn all_dead(g: Seq<bool>) -> bool {
    forall|k: int| 0 <= k < g.len() ==> !g[k]
}

/// Linear coordinates of a valid row-major position.
proof fn lemma_position_coordinates(k: int)
    requires
        0 <= k < AREA,
    ensures
        0 <= k / (WIDTH as int) < HEIGHT,
        0 <= k % (WIDTH as int) < WIDTH,
        k == (k / (WIDTH as int)) * (WIDTH as int) + k % (WIDTH as int),
{
    vstd::arithmetic::div_mod::lemma_fundamental_div_mod(k, WIDTH as int);
    vstd::arithmetic::div_mod::lemma_mod_bound(k, WIDTH as int);
}

/// Away from the edges no neighbor coordinate wraps, so the count is the
/// plain sum over the 8 unwrapped Moore offsets.
proof fn lemma_count_interior(g: Seq<bool>, i: int, j: int)
    requires
        1 <= i < HEIGHT - 1,
        1 <= j < WIDTH - 1,
    ensures
        live_neighbor_count(g, i, j) == (if cell(g, i - 1, j - 1) {
            1int
        } else {
            0int
        }) + (if cell(g, i - 1, j) {
            1int
        } else {
            0int
        }) + (if cell(g, i - 1, j + 1) {
            1int
        } else {
            0int
        }) + (if cell(g, i, j - 1) {
            1int
        } else {
            0int
        }) + (if cell(g, i, j + 1) {
            1int
        } else {
            0int
        }) + (if cell(g, i + 1, j - 1) {
            1int
        } else {
            0int
        }) + (if cell(g, i + 1, j) {
            1int
        } else {
            0int
        }) + (if cell(g, i + 1, j + 1) {
            1int
        } else {
            0int
        }),
{
    assert((i - 1) % (HEIGHT as int) == i - 1) by {
        vstd::arithmetic::div_mod::lemma_small_mod((i - 1) as nat, HEIGHT as nat);
    }
    assert(i % (HEIGHT as int) == i) by {
        vstd::arithmetic::div_mod::lemma_small_mod(i as nat, HEIGHT as nat);
    }
    assert((i + 1) % (HEIGHT as int) == i + 1) by {
        vstd::arithmetic::div_mod::lemma_small_mod((i + 1) as nat, HEIGHT as nat);
    }
    assert((j - 1) % (WIDTH as int) == j - 1) by {
        vstd::arithmetic::div_mod::lemma_small_mod((j - 1) as nat, WIDTH as nat);
    }
    assert(j % (WIDTH as int) == j) by {
        vstd::arithmetic::div_mod::lemma_small_mod(j as nat, WIDTH as nat);
    }
    assert((j + 1) % (WIDTH as int) == j + 1) by {
        vstd::arithmetic::div_mod::lemma_small_mod((j + 1) as nat, WIDTH as nat);
    }
}

/// A cell whose whole neighborhood misses the support box of the live cells
/// has no live neighbors, wrap included.
proof fn lemma_count_outside_box(g: Seq<bool>, r0: int, r1: int, c0: int, c1: int, i: int, j: int)
    requires
        forall|a: int, b: int|
            0 <= a < HEIGHT && 0 <= b < WIDTH && #[trigger] cell(g, a, b) ==> r0 <= a <= r1 && c0
                <= b <= c1,
        2 <= r0,
        r1 <= HEIGHT - 3,
        2 <= c0,
        c1 <= WIDTH - 3,
        0 <= i < HEIGHT,
        0 <= j < WIDTH,
        !(r0 - 1 <= i <= r1 + 1 && c0 - 1 <= j <= c1 + 1),
    ensures
        live_neighbor_count(g, i, j) == 0,
{
    assert forall|di: int, dj: int| -1 <= di <= 1 && -1 <= dj <= 1 implies neighbor_bit(
        g,
        i,
        j,
        di,
        dj,
    ) == 0 by {
        vstd::arithmetic::div_mod::lemma_mod_bound(i + di, HEIGHT as int);
        vstd::arithmetic::div_mod::lemma_mod_bound(j + dj, WIDTH as int);
        if 0 <= i + di < HEIGHT {
            vstd::arithmetic::div_mod::lemma_small_mod((i + di) as nat, HEIGHT as nat);
        }
        if i + di == HEIGHT {
            vstd::arithmetic::div_mod::lemma_mod_self_0(HEIGHT as int);
        }
        if 0 <= j + dj < WIDTH {
            vstd::arithmetic::div_mod::lemma_small_mod((j + dj) as nat, WIDTH as nat);
        }
        if j + dj == WIDTH {
            vstd::arithmetic::div_mod::lemma_mod_self_0(WIDTH as int);
        }
        assert(!cell(g, (i + di) % (HEIGHT as int), (j + dj) % (WIDTH as int)));
    }
}

/// Law (empty-grid fixed point): stepping an all-dead grid yields the same
/// all-dead grid; the rule never generates life spontaneously.
pub proof fn lemma_empty_fixed_point(g: Seq<bool>)
    requires
        grid_wf(g),
        all_dead(g),
    ensures
        next_grid(g) == g,
{
    assert forall|k: int| 0 <= k < AREA implies next_grid(g)[k] == g[k] by {
        let i = k / (WIDTH as int);
        let j = k % (WIDTH as int);
        lemma_position_coordinates(k);
        lemma_next_grid_cell(g, i, j);
        assert forall|di: int, dj: int| -1 <= di <= 1 && -1 <= dj <= 1 implies neighbor_bit(
            g,
            i,
            j,
            di,
            dj,
        ) == 0 by {
            vstd::arithmetic::div_mod::lemma_mod_bound(i + di, HEIGHT as int);
            vstd::arithmetic::div_mod::lemma_mod_bound(j + dj, WIDTH as int);
        }
        assert(live_neighbor_count(g, i, j) == 0);
    }
    assert(next_grid(g) =~= g);
}

/// The isolated 2x2 block: live exactly at rows `r, r + 1`, columns
/// `c, c + 1`.
pub open spec fn block_cells(r: int, c: int, i: int, j: int) -> bool {
    (i == r || i == r + 1) && (j == c || j == c + 1)
}

/// Law (still life): a grid holding exactly a 2x2 block of live cells,
/// placed far enough from the edges that its neighborhood does not wrap
/// onto itself, is left exactly unchanged by one generation step.
#[verifier::rlimit(60)]
pub proof fn lemma_block_still_life(g: Seq<bool>, r: int, c: int)
    requires
        grid_wf(g),
        2 <= r <= HEIGHT - 4,
        2 <= c <= WIDTH - 4,
        forall|a: int, b: int|
            0 <= a < HEIGHT && 0 <= b < WIDTH ==> #[trigger] cell(g, a, b) == block_cells(
                r,
                c,
                a,
                b,
            ),
    ensures
        next_grid(g) == g,
{
    assert forall|k: int| 0 <= k < AREA implies next_grid(g)[k] == g[k] by {
        let i = k / (WIDTH as int);
        let j = k % (WIDTH as int);
        lemma_position_coordinates(k);
        lemma_next_grid_cell(g, i, j);
        if r - 1 <= i <= r + 2 && c - 1 <= j <= c + 2 {
            lemma_count_interior(g, i, j);
        } else {
            lemma_count_outside_box(g, r, r + 1, c, c + 1, i, j);
        }
        assert(next_cell(g, i, j) == cell(g, i, j));
    }
    assert(next_grid(g) =~= g);
}

/// The isolated horizontal blinker: live exactly at row `r`, columns
/// `c - 1, c, c + 1`.
pub open spec fn blinker_row_cells(r: int, c: int, i: int, j: int) -> bool {
    i == r && (j == c - 1 || j == c || j == c + 1)
}

/// The isolated vertical blinker: live exactly at column `c`, rows
/// `r - 1, r, r + 1`.
pub open spec fn blinker_col_cells(r: int, c: int, i: int, j: int) -> bool {
    j == c && (i == r - 1 || i == r || i == r + 1)
}

/// One step of the horizontal blinker: it becomes the vertical blinker.
#[verifier::rlimit(60)]
pub proof fn lemma_blinker_row_step(g: Seq<bool>, r: int, c: int)
    requires
        grid_wf(g),
        3 <= r <= HEIGHT - 4,
        3 <= c <= WIDTH - 4,
        forall|a: int, b: int|
            0 <= a < HEIGHT && 0 <= b < WIDTH ==> #[trigger] cell(g, a, b) == blinker_row_cells(
                r,
                c,
                a,
                b,
            ),
    ensures
        forall|a: int, b: int|
            0 <= a < HEIGHT && 0 <= b < WIDTH ==> #[trigger] cell(next_grid(g), a, b)
                == blinker_col_cells(r, c, a, b),
{
    assert forall|a: int, b: int| 0 <= a < HEIGHT && 0 <= b < WIDTH implies #[trigger] cell(
        next_grid(g),
        a,
        b,
    ) == blinker_col_cells(r, c, a, b) by {
        lemma_next_grid_cell(g, a, b);
        if r - 1 <= a <= r + 1 && c - 2 <= b <= c + 2 {
            lemma_count_interior(g, a, b);
        } else {
            lemma_count_outside_box(g, r, r, c - 1, c + 1, a, b);
        }
    }
}

/// One step of the vertical blinker: it becomes the horizontal blinker.
#[verifier::rlimit(60)]
pub proof fn lemma_blinker_col_step(g: Seq<bool>, r: int, c: int)
    requires
        grid_wf(g),
        3 <= r <= HEIGHT - 4,
        3 <= c <= WIDTH - 4,
        forall|a: int, b: int|
            0 <= a < HEIGHT && 0 <= b < WIDTH ==> #[trigger] cell(g, a, b) == blinker_col_cells(
                r,
                c,
                a,
                b,
            ),
    ensures
        forall|a: int, b: int|
            0 <= a < HEIGHT && 0 <= b < WIDTH ==> #[trigger] cell(next_grid(g), a, b)
                == blinker_row_cells(r, c, a, b),
{
    assert forall|a: int, b: int| 0 <= a < HEIGHT && 0 <= b < WIDTH implies #[trigger] cell(
        next_grid(g),
        a,
        b,
    ) == blinker_row_cells(r, c, a, b) by {
        lemma_next_grid_cell(g, a, b);
        if r - 2 <= a <= r + 2 && c - 1 <= b <= c + 1 {
            lemma_count_interior(g, a, b);
        } else {
            lemma_count_outside_box(g, r - 1, r + 1, c, c, a, b);
        }
    }
}

/// Law (oscillator): a grid holding exactly an isolated horizontal blinker
/// far enough from the edges becomes the vertical blinker through one
/// generation step, and a second step restores the original grid exactly.
pub proof fn lemma_blinker_oscillates(g: Seq<bool>, r: int, c: int)
    requires
        grid_wf(g),
        3 <= r <= HEIGHT - 4,
        3 <= c <= WIDTH - 4,
        forall|a: int, b: int|
            0 <= a < HEIGHT && 0 <= b < WIDTH ==> #[trigger] cell(g, a, b) == blinker_row_cells(
                r,
                c,
                a,
                b,
            ),
    ensures
        forall|a: int, b: int|
            0 <= a < HEIGHT && 0 <= b < WIDTH ==> #[trigger] cell(next_grid(g), a, b)
                == blinker_col_cells(r, c, a, b),
        next_grid(next_grid(g)) == g,
{
    lemma_blinker_row_step(g, r, c);
    lemma_blinker_col_step(next_grid(g), r, c);
    assert forall|k: int| 0 <= k < AREA implies next_grid(next_grid(g))[k] == g[k] by {
        let i = k / (WIDTH as int);
        let j = k % (WIDTH as int);
        lemma_position_coordinates(k);
        assert(cell(next_grid(next_grid(g)), i, j) == blinker_row_cells(r, c, i, j));
        assert(cell(g, i, j) == blinker_row_cells(r, c, i, j));
    }
    assert(next_grid(next_grid(g)) =~= g);
}

} // verus!
