//! Laws of the reveal sequencer: repeated ticks visit every cell exactly
//! once in row-major order and, after `HEIGHT * WIDTH` of them, have copied
//! the whole hidden pattern into the visible grid.

use vstd::prelude::*;

use crate::grid::{cell_index, AREA, HEIGHT, WIDTH};
use crate::world::{advance_step, cursor_position, reveal_complete_at, view_wf, WorldView};

verus! {

/// The model after `n` reveal ticks.
pub open spec fn advance_iter(w: WorldView, n: nat) -> WorldView
    decreases n,
{
    if n == 0 {
        w
    } else {
        advance_step(advance_iter(w, (n - 1) as nat))
    }
}

/// One tick preserves well-formedness; while reveal is active it writes the
/// hidden cell under the cursor and moves the linear position forward by
/// exactly one.
proof fn lemma_advance_step_properties(w: WorldView)
    requires
        view_wf(w),
    ensures
        view_wf(advance_step(w)),
        advance_step(w).initial_cells == w.initial_cells,
        reveal_complete_at(w) ==> advance_step(w) == w,
        !reveal_complete_at(w) ==> cursor_position(advance_step(w)) == cursor_position(w) + 1,
        !reveal_complete_at(w) ==> advance_step(w).cells == w.cells.update(
            cursor_position(w),
            w.initial_cells[cursor_position(w)],
        ),
        0 <= cursor_position(w) <= AREA,
        reveal_complete_at(w) <==> cursor_position(w) == AREA,
{
}

/// Ticks compose: `n` ticks from `w` are one tick and then `n - 1` more.
proof fn lemma_advance_iter_shift(w: WorldView, n: nat)
    requires
        n >= 1,
    ensures
        advance_iter(w, n) == advance_iter(advance_step(w), (n - 1) as nat),
    decreases n,
{
    if n == 1 {
        assert(advance_iter(w, 1) == advance_step(advance_iter(w, 0)));
        assert(advance_iter(advance_step(w), 0) == advance_step(w));
    } else {
        lemma_advance_iter_shift(w, (n - 1) as nat);
        assert(advance_iter(w, n) == advance_step(advance_iter(w, (n - 1) as nat)));
        assert(advance_iter(advance_step(w), (n - 1) as nat) == advance_step(
            advance_iter(advance_step(w), (n - 2) as nat),
        ));
    }
}

/// Running the sequencer out from any well-formed state: after exactly the
/// remaining number of cells many ticks, reveal is complete, every not yet
/// visited cell holds the hidden pattern, every already visited cell is
/// untouched, and the hidden pattern itself never changed.
pub proof fn lemma_reveal_from(w: WorldView)
    requires
        view_wf(w),
    ensures
        view_wf(advance_iter(w, (AREA - cursor_position(w)) as nat)),
        reveal_complete_at(advance_iter(w, (AREA - cursor_position(w)) as nat)),
        advance_iter(w, (AREA - cursor_position(w)) as nat).initial_cells == w.initial_cells,
        forall|k: int|
            0 <= k < AREA ==> advance_iter(w, (AREA - cursor_position(w)) as nat).cells[k] == (
            if k >= cursor_position(w) {
                w.initial_cells[k]
            } else {
                w.cells[k]
            }),
    decreases AREA - cursor_position(w),
{
    lemma_advance_step_properties(w);
    if !reveal_complete_at(w) {
        let w1 = advance_step(w);
        let pos = cursor_position(w);
        let n = (AREA - pos) as nat;
        lemma_advance_iter_shift(w, n);
        lemma_reveal_from(w1);
        assert(cursor_position(w1) == pos + 1);
        assert(advance_iter(w, n) == advance_iter(w1, (n - 1) as nat));
        assert forall|k: int| 0 <= k < AREA implies advance_iter(w, n).cells[k] == (if k >= pos {
            w.initial_cells[k]
        } else {
            w.cells[k]
        }) by {
            assert(advance_iter(w1, (n - 1) as nat).cells[k] == (if k >= pos + 1 {
                w1.initial_cells[k]
            } else {
                w1.cells[k]
            }));
            assert(w1.cells == w.cells.update(pos, w.initial_cells[pos]));
            if k == pos {
                assert(w1.cells[k] == w.initial_cells[k]);
            }
        }
    }
}

/// Law (reveal completeness): starting from a fresh cursor at the origin,
/// exactly `HEIGHT * WIDTH` ticks complete the reveal and make the visible
/// grid equal the hidden pattern cell for cell, and one further tick
/// changes nothing at all.
pub proof fn lemma_reveal_completeness(w: WorldView)
    requires
        view_wf(w),
        w.cursor_row == 0,
        w.cursor_col == 0,
    ensures
        reveal_complete_at(advance_iter(w, AREA as nat)),
        advance_iter(w, AREA as nat).initial_cells == w.initial_cells,
        forall|k: int|
            0 <= k < AREA ==> advance_iter(w, AREA as nat).cells[k] == w.initial_cells[k],
        advance_step(advance_iter(w, AREA as nat)) == advance_iter(w, AREA as nat),
{
    lemma_reveal_from(w);
}

/// Law (reveal monotonicity): from a fresh cursor the positions visited by
/// repeated ticks are exactly the row-major enumeration of the grid: after
/// `n` ticks the cursor sits at linear position `n` — so it moves strictly
/// forward, never repeats and never skips a cell — and tick `n + 1` writes
/// exactly cell `n` of the hidden pattern.
pub proof fn lemma_reveal_order(w: WorldView, n: nat)
    requires
        view_wf(w),
        w.cursor_row == 0,
        w.cursor_col == 0,
        n <= AREA,
    ensures
        view_wf(advance_iter(w, n)),
        cursor_position(advance_iter(w, n)) == n,
        advance_iter(w, n).cursor_row == n as int / (WIDTH as int),
        advance_iter(w, n).cursor_col == n as int % (WIDTH as int),
        advance_iter(w, n).initial_cells == w.initial_cells,
        n < AREA ==> advance_iter(w, (n + 1) as nat).cells == advance_iter(w, n).cells.update(
            n as int,
            w.initial_cells[n as int],
        ),
    decreases n,
{
    if n == 0 {
        assert(cursor_position(w) == 0);
    } else {
        lemma_reveal_order(w, (n - 1) as nat);
        lemma_advance_step_properties(advance_iter(w, (n - 1) as nat));
    }
    let wn = advance_iter(w, n);
    if cursor_position(wn) < AREA {
        assert(!reveal_complete_at(wn)) by {
            lemma_advance_step_properties(wn);
        }
        vstd::arithmetic::div_mod::lemma_fundamental_div_mod_converse(
            n as int,
            WIDTH as int,
            wn.cursor_row,
            wn.cursor_col,
        );
    }
    lemma_advance_step_properties(wn);
}

} // verus!
