//! The simulation controller: owns one grid, the generation counter and the
//! two flags that govern whether the simulation advances and whether a
//! redraw is requested.

use vstd::prelude::*;
use crate::grid::{Cell, Grid, grid_step};

verus! {

/// Owns exactly one [`Grid`] together with the generation counter,
/// `running` (the simulation advances when true) and `render_armed` (a
/// redraw is requested by the driver when true). The two flags are
/// orthogonal: no operation alters one because of the other, except the
/// documented compound operations.
pub struct SimulationController {
    pub grid: Grid,
    pub generation: u64,
    pub running: bool,
    pub render_armed: bool,
}

/// What a `clear` leaves behind: generation zero, simulation paused,
/// rendering armed, every cell Dead.
pub open spec fn cleared(ctrl: SimulationController) -> bool {
    &&& ctrl.generation == 0
    &&& !ctrl.running
    &&& ctrl.render_armed
    &&& forall|r: int, c: int|
        0 <= r < ctrl.grid.height && 0 <= c < ctrl.grid.width ==> ctrl.grid.cell_at(r, c)
            == Cell::Dead
}

/// The effect of one `clear` call: the dimensions are kept and the state is
/// the cleared state.
pub open spec fn clear_step(pre: SimulationController, post: SimulationController) -> bool {
    &&& post.grid.width == pre.grid.width
    &&& post.grid.height == pre.grid.height
    &&& cleared(post)
}

/// The effect of one `toggle_pause_and_render` call: both flags flip and
/// nothing else changes.
pub open spec fn toggle_both_step(pre: SimulationController, post: SimulationController) -> bool {
    &&& post.running == !pre.running
    &&& post.render_armed == !pre.render_armed
    &&& post.grid == pre.grid
    &&& post.generation == pre.generation
}

impl SimulationController {
    /// The controller invariant: the owned grid is well formed.
    pub open spec fn wf(self) -> bool {
        self.grid.wf()
    }

    /// A controller wrapping a freshly random-filled grid of the given
    /// dimensions, at generation 0, running, with rendering armed.
    pub fn new(width: usize, height: usize) -> (ctrl: SimulationController)
        requires
            1 <= width,
            1 <= height,
            width * height <= usize::MAX,
        ensures
            ctrl.wf(),
            ctrl.grid.width == width,
            ctrl.grid.height == height,
            ctrl.generation == 0,
            ctrl.running,
            ctrl.render_armed,
    {
        SimulationController {
            grid: Grid::new_random(width, height),
            generation: 0,
            running: true,
            render_armed: true,
        }
    }

    /// Whether the simulation is paused; used by the interaction gateway to
    /// gate edits.
    pub fn is_paused(&self) -> (paused: bool)
        ensures
            paused == !self.running,
    {
        !self.running
    }

    /// One driver quantum. When `running`, the grid advances one generation
    /// and the counter increments by exactly 1. The returned flag tells the
    /// driver whether to emit a redraw, which is due exactly when
    /// `render_armed` was set. When the simulation was already paused and a
    /// redraw was armed, the redraw is the last one: rendering goes idle
    /// until explicitly re-armed.
    pub fn tick(&mut self) -> (redraw: bool)
        requires
            old(self).wf(),
            old(self).running ==> old(self).generation < u64::MAX,
        ensures
            final(self).wf(),
            final(self).grid.width == old(self).grid.width,
            final(self).grid.height == old(self).grid.height,
            old(self).running ==> grid_step(old(self).grid, final(self).grid)
                && final(self).generation == old(self).generation + 1,
            !old(self).running ==> final(self).grid == old(self).grid && final(self).generation
                == old(self).generation,
            redraw == old(self).render_armed,
            final(self).running == old(self).running,
            final(self).render_armed == (old(self).render_armed && old(self).running),
    {
        let redraw = self.render_armed;
        if self.running {
            self.grid.tick();
            self.generation = self.generation + 1;
        } else if self.render_armed {
            // Single-shot redraw after a pause: the redraw just emitted shows
            // the paused state, then rendering goes idle.
            self.render_armed = false;
        }
        redraw
    }

    /// Disarm automatic rendering for the duration of an edit session.
    pub fn pause_for_edit(&mut self)
        ensures
            final(self).render_armed == false,
            final(self).running == old(self).running,
            final(self).generation == old(self).generation,
            final(self).grid == old(self).grid,
    {
        self.render_armed = false;
    }

    /// Re-arm automatic rendering at the end of an edit session.
    pub fn resume_after_edit(&mut self)
        ensures
            final(self).render_armed == true,
            final(self).running == old(self).running,
            final(self).generation == old(self).generation,
            final(self).grid == old(self).grid,
    {
        self.render_armed = true;
    }

    /// Flip whether the simulation advances.
    pub fn toggle_pause(&mut self)
        ensures
            final(self).running == !old(self).running,
            final(self).render_armed == old(self).render_armed,
            final(self).generation == old(self).generation,
            final(self).grid == old(self).grid,
    {
        self.running = !self.running;
    }

    /// Flip whether redraws are requested.
    pub fn toggle_render(&mut self)
        ensures
            final(self).render_armed == !old(self).render_armed,
            final(self).running == old(self).running,
            final(self).generation == old(self).generation,
            final(self).grid == old(self).grid,
    {
        self.render_armed = !self.render_armed;
    }

    /// Flip both flags at once; bound to a single hotkey.
    pub fn toggle_pause_and_render(&mut self)
        ensures
            toggle_both_step(*old(self), *final(self)),
    {
        self.toggle_pause();
        self.toggle_render();
    }

    /// Reset the generation counter to 0, pause the simulation, arm
    /// rendering and set every cell Dead. The dimensions are unchanged.
    pub fn clear(&mut self)
        requires
            old(self).wf(),
        ensures
            final(self).wf(),
            clear_step(*old(self), *final(self)),
    {
        self.generation = 0;
        self.grid.fill_dead();
        self.running = false;
        self.render_armed = true;
    }

    /// Refill the grid randomly, reset the generation counter to 0 and arm
    /// rendering; whether the simulation runs is left unchanged, as are the
    /// dimensions.
    pub fn reset(&mut self)
        requires
            old(self).wf(),
        ensures
            final(self).wf(),
            final(self).grid.width == old(self).grid.width,
            final(self).grid.height == old(self).grid.height,
            final(self).generation == 0,
            final(self).render_armed,
            final(self).running == old(self).running,
    {
        self.generation = 0;
        self.render_armed = true;
        self.grid.fill_random();
    }

    /// Overwrite one cell while the simulation is paused. An out-of-range
    /// upper coordinate is a silent no-op; counters, flags and dimensions
    /// are never touched.
    pub fn edit(&mut self, cell: Cell, col: usize, row: usize)
        requires
            old(self).wf(),
            !old(self).running,
        ensures
            final(self).wf(),
            final(self).grid.width == old(self).grid.width,
            final(self).grid.height == old(self).grid.height,
            final(self).generation == old(self).generation,
            final(self).running == old(self).running,
            final(self).render_armed == old(self).render_armed,
            col < old(self).grid.width && row < old(self).grid.height ==> final(self).grid.cell_at(
                row as int,
                col as int,
            ) == cell && forall|r: int, c: int|
                0 <= r < old(self).grid.height && 0 <= c < old(self).grid.width && !(r == row && c
                    == col) ==> final(self).grid.cell_at(r, c) == old(self).grid.cell_at(r, c),
            !(col < old(self).grid.width && row < old(self).grid.height) ==> final(self).grid
                == old(self).grid,
    {
        if col < self.grid.width && row < self.grid.height {
            self.grid.set_cell(cell, col, row);
        }
    }
}

} // verus!
