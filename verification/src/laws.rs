//! The general properties of the core, stated and proved over the same spec
//! functions that the operations' contracts use.

use vstd::prelude::*;
use crate::controller::{SimulationController, clear_step, cleared, toggle_both_step};
use crate::grid::{Cell, Grid, grid_step, lemma_dec_mod, lemma_id_mod, lemma_inc_mod};

verus! {

/// `tick` is a pure function of the prior grid contents: two grids holding
/// identical cells advance to identical cells.
pub proof fn lemma_tick_deterministic(a: Grid, b: Grid, a2: Grid, b2: Grid)
    requires
        a.width == b.width,
        a.height == b.height,
        a.cells@ == b.cells@,
        grid_step(a, a2),
        grid_step(b, b2),
    ensures
        a2.width == b2.width,
        a2.height == b2.height,
        forall|r: int, c: int|
            0 <= r < a.height && 0 <= c < a.width ==> a2.cell_at(r, c) == b2.cell_at(r, c),
{
    assert forall|r: int, c: int|
        0 <= r < a.height && 0 <= c < a.width implies a2.cell_at(r, c) == b2.cell_at(r, c) by {
        reveal(Grid::neighbor_count);
        assert(a.cell_at(r, c) == b.cell_at(r, c));
        assert(a.neighbor_count(r, c) == b.neighbor_count(r, c));
    }
}

/// The transition rule, cell by cell: a Dead cell with exactly 3 live
/// neighbors becomes Alive; an Alive cell with 2 or 3 live neighbors stays
/// Alive; an Alive cell with fewer than 2 or more than 3 dies; any other
/// Dead cell is unchanged.
pub proof fn lemma_transition_rule(pre: Grid, post: Grid, row: int, col: int)
    requires
        grid_step(pre, post),
        0 <= row < pre.height,
        0 <= col < pre.width,
    ensures
        pre.cell_at(row, col) is Dead && pre.neighbor_count(row, col) == 3 ==> post.cell_at(
            row,
            col,
        ) is Alive,
        pre.cell_at(row, col) is Alive && (pre.neighbor_count(row, col) == 2
            || pre.neighbor_count(row, col) == 3) ==> post.cell_at(row, col) is Alive,
        pre.cell_at(row, col) is Alive && pre.neighbor_count(row, col) < 2 ==> post.cell_at(
            row,
            col,
        ) is Dead,
        pre.cell_at(row, col) is Alive && pre.neighbor_count(row, col) > 3 ==> post.cell_at(
            row,
            col,
        ) is Dead,
        pre.cell_at(row, col) is Dead && pre.neighbor_count(row, col) != 3 ==> post.cell_at(
            row,
            col,
        ) == pre.cell_at(row, col),
{
}

/// Neighbor counting wraps: the corner cell `(0, 0)` counts the far corner
/// `(height-1, width-1)`, the far row `(height-1, 0)` and `(height-1, 1)`,
/// and the far column `(0, width-1)` and `(1, width-1)` among its 8
/// neighbors.
pub proof fn lemma_neighbor_wraparound(g: Grid)
    requires
        g.wf(),
        2 <= g.width,
        2 <= g.height,
    ensures
        g.neighbor_count(0, 0) == g.live_flag(g.height - 1, g.width - 1) + g.live_flag(
            g.height - 1,
            0,
        ) + g.live_flag(g.height - 1, 1) + g.live_flag(0, g.width - 1) + g.live_flag(0, 1)
            + g.live_flag(1, g.width - 1) + g.live_flag(1, 0) + g.live_flag(1, 1),
{
    reveal(Grid::neighbor_count);
    let w = g.width as int;
    let h = g.height as int;
    lemma_dec_mod(0, h);
    lemma_inc_mod(0, h);
    lemma_id_mod(0, h);
    lemma_id_mod(1, h);
    lemma_dec_mod(0, w);
    lemma_inc_mod(0, w);
    lemma_id_mod(0, w);
    lemma_id_mod(1, w);
}

/// `clear` is idempotent: after one `clear` the state is the cleared state,
/// and a second `clear` leaves an observably identical state — all cells
/// Dead, generation 0, paused, rendering armed, dimensions kept.
pub proof fn lemma_clear_idempotent(
    s0: SimulationController,
    s1: SimulationController,
    s2: SimulationController,
)
    requires
        clear_step(s0, s1),
        clear_step(s1, s2),
    ensures
        cleared(s1),
        cleared(s2),
        s2.grid.width == s1.grid.width,
        s2.grid.height == s1.grid.height,
        s2.generation == s1.generation,
        s2.running == s1.running,
        s2.render_armed == s1.render_armed,
        forall|r: int, c: int|
            0 <= r < s1.grid.height && 0 <= c < s1.grid.width ==> s2.grid.cell_at(r, c)
                == s1.grid.cell_at(r, c),
{
    assert forall|r: int, c: int|
        0 <= r < s1.grid.height && 0 <= c < s1.grid.width implies s2.grid.cell_at(r, c)
        == s1.grid.cell_at(r, c) by {
        assert(s1.grid.cell_at(r, c) == Cell::Dead);
        assert(s2.grid.cell_at(r, c) == Cell::Dead);
    }
}

/// `toggle_pause_and_render` applied twice returns `running` and
/// `render_armed` to their original values, and never touches the grid or
/// the generation counter.
pub proof fn lemma_toggle_both_twice(
    s0: SimulationController,
    s1: SimulationController,
    s2: SimulationController,
)
    requires
        toggle_both_step(s0, s1),
        toggle_both_step(s1, s2),
    ensures
        s2.running == s0.running,
        s2.render_armed == s0.render_armed,
        s2.grid == s0.grid,
        s2.generation == s0.generation,
{
}

} // verus!
