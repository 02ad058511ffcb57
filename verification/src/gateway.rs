//! The interaction gateway: translates raw device coordinates, button state
//! and hotkeys into controller calls. It is the only caller of
//! [`SimulationController::edit`], and it enforces the "edit only while
//! paused" rule.

use vstd::prelude::*;
use crate::LifeError;
use crate::controller::{SimulationController, clear_step, toggle_both_step};
use crate::grid::Cell;

verus! {

/// The three hotkeys the gateway understands.
#[derive(Copy, Clone, PartialEq, Eq, Structural, Debug)]
pub enum Hotkey {
    TogglePause,
    Reset,
    Clear,
}

/// Map device pixel coordinates to a grid `(col, row)` by integer-dividing
/// by the per-cell pixel pitch, rounding toward zero. A negative device
/// coordinate is rejected with `OutOfRange` instead of being allowed to
/// wrap through unsigned arithmetic.
pub fn map_device_to_cell(x: i32, y: i32, pitch: i32) -> (result: Result<
    (usize, usize),
    LifeError,
>)
    requires
        1 <= pitch,
    ensures
        match result {
            Ok(cr) => {
                &&& x >= 0
                &&& y >= 0
                &&& cr.0 == x as int / pitch as int
                &&& cr.1 == y as int / pitch as int
            },
            Err(e) => {
                &&& e == LifeError::OutOfRange
                &&& x < 0 || y < 0
            },
        },
{
    if x < 0 || y < 0 {
        return Err(LifeError::OutOfRange);
    }
    let col = (x as usize) / (pitch as usize);
    let row = (y as usize) / (pitch as usize);
    Ok((col, row))
}

/// A primary-button press or drag paints Alive, a secondary one paints
/// Dead, at the cell under the cursor, only while the simulation is paused.
/// While an edit session is on, automatic rendering is disarmed so that it
/// does not race with per-cell edit draws. Events that arrive while the
/// simulation runs are ignored; a negative device coordinate is rejected
/// with `OutOfRange`; an out-of-range upper coordinate is a silent no-op.
pub fn pointer_edit(
    ctrl: &mut SimulationController,
    primary: bool,
    x: i32,
    y: i32,
    pitch: i32,
) -> (result: Result<(), LifeError>)
    requires
        old(ctrl).wf(),
        1 <= pitch,
    ensures
        final(ctrl).wf(),
        final(ctrl).grid.width == old(ctrl).grid.width,
        final(ctrl).grid.height == old(ctrl).grid.height,
        final(ctrl).running == old(ctrl).running,
        final(ctrl).generation == old(ctrl).generation,
        match result {
            Ok(_) => {
                if old(ctrl).running {
                    *final(ctrl) == *old(ctrl)
                } else {
                    &&& x >= 0 && y >= 0
                    &&& !final(ctrl).render_armed
                    &&& edited(
                        old(ctrl),
                        final(ctrl),
                        if primary {
                            Cell::Alive
                        } else {
                            Cell::Dead
                        },
                        x as int / pitch as int,
                        y as int / pitch as int,
                    )
                }
            },
            Err(e) => {
                &&& e == LifeError::OutOfRange
                &&& !old(ctrl).running && (x < 0 || y < 0)
                &&& *final(ctrl) == *old(ctrl)
            },
        },
{
    if !ctrl.is_paused() {
        return Ok(());
    }
    match map_device_to_cell(x, y, pitch) {
        Ok((col, row)) => {
            ctrl.pause_for_edit();
            let cell = if primary {
                Cell::Alive
            } else {
                Cell::Dead
            };
            ctrl.edit(cell, col, row);
            Ok(())
        },
        Err(e) => Err(e),
    }
}

/// How `pointer_edit` leaves the grid: the aimed-at cell holds `cell` and
/// every other cell is unchanged when `(col, row)` is in range; the whole
/// grid is unchanged otherwise.
pub open spec fn edited(
    pre: &SimulationController,
    post: &SimulationController,
    cell: Cell,
    col: int,
    row: int,
) -> bool {
    if 0 <= col < pre.grid.width && 0 <= row < pre.grid.height {
        &&& post.grid.cell_at(row, col) == cell
        &&& forall|r: int, c: int|
            0 <= r < pre.grid.height && 0 <= c < pre.grid.width && !(r == row && c == col)
                ==> post.grid.cell_at(r, c) == pre.grid.cell_at(r, c)
    } else {
        post.grid == pre.grid
    }
}

/// A primary- or secondary-button release ends the edit session and re-arms
/// automatic rendering.
pub fn pointer_release(ctrl: &mut SimulationController)
    ensures
        final(ctrl).render_armed,
        final(ctrl).running == old(ctrl).running,
        final(ctrl).generation == old(ctrl).generation,
        final(ctrl).grid == old(ctrl).grid,
{
    ctrl.resume_after_edit();
}

/// Dispatch one hotkey: pause-toggle flips both flags, reset refills the
/// grid randomly, clear empties it and pauses.
pub fn hotkey(ctrl: &mut SimulationController, key: Hotkey)
    requires
        old(ctrl).wf(),
    ensures
        final(ctrl).wf(),
        final(ctrl).grid.width == old(ctrl).grid.width,
        final(ctrl).grid.height == old(ctrl).grid.height,
        key is TogglePause ==> toggle_both_step(*old(ctrl), *final(ctrl)),
        key is Reset ==> final(ctrl).generation == 0 && final(ctrl).render_armed
            && final(ctrl).running == old(ctrl).running,
        key is Clear ==> clear_step(*old(ctrl), *final(ctrl)),
{
    match key {
        Hotkey::TogglePause => ctrl.toggle_pause_and_render(),
        Hotkey::Reset => ctrl.reset(),
        Hotkey::Clear => ctrl.clear(),
    }
}

} // verus!
