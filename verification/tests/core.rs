use game_of_life::controller::SimulationController;
use game_of_life::gateway::{hotkey, map_device_to_cell, pointer_edit, pointer_release, Hotkey};
use game_of_life::grid::{cell_from_digit, next_cell_value, Cell, Grid};
use game_of_life::LifeError;

fn grid_with_alive(width: usize, height: usize, alive: &[(usize, usize)]) -> Grid {
    let mut g = Grid::new(width, height);
    for &(row, col) in alive {
        g.set_cell(Cell::Alive, col, row);
    }
    g
}

fn paused_controller(grid: Grid) -> SimulationController {
    SimulationController {
        grid,
        generation: 0,
        running: false,
        render_armed: true,
    }
}

fn running_controller(grid: Grid) -> SimulationController {
    SimulationController {
        grid,
        generation: 0,
        running: true,
        render_armed: true,
    }
}

fn cells_of(g: &Grid) -> Vec<Cell> {
    let mut out = Vec::new();
    for row in 0..g.height {
        for col in 0..g.width {
            out.push(g.get_cell(col, row));
        }
    }
    out
}

#[test]
fn transition_rule_all_nine_combinations() {
    for n in 0u8..=8 {
        let from_alive = next_cell_value(Cell::Alive, n);
        let from_dead = next_cell_value(Cell::Dead, n);
        if n < 2 {
            assert_eq!(from_alive, Cell::Dead, "underpopulation at {}", n);
        } else if n == 2 || n == 3 {
            assert_eq!(from_alive, Cell::Alive, "survival at {}", n);
        } else {
            assert_eq!(from_alive, Cell::Dead, "overpopulation at {}", n);
        }
        if n == 3 {
            assert_eq!(from_dead, Cell::Alive, "birth at {}", n);
        } else {
            assert_eq!(from_dead, Cell::Dead, "dead stays dead at {}", n);
        }
    }
}

#[test]
fn draw_to_cell_mapping_over_all_ten_digits() {
    // A uniform draw over [0, 10) makes a cell Alive exactly when it
    // exceeds 5: 4 of the 10 outcomes.
    for r in 0u32..10 {
        let expected = if r > 5 { Cell::Alive } else { Cell::Dead };
        assert_eq!(cell_from_digit(r), expected, "draw {}", r);
    }
}

#[test]
fn new_grid_is_all_dead() {
    let g = Grid::new(4, 3);
    assert_eq!(g.width, 4);
    assert_eq!(g.height, 3);
    for row in 0..3 {
        for col in 0..4 {
            assert_eq!(g.get_cell(col, row), Cell::Dead);
        }
    }
}

#[test]
fn neighbor_count_wraps_at_corner() {
    // The corner (0,0) of a 3x3 torus must see the far corner and the far
    // edges as neighbors.
    let g = grid_with_alive(3, 3, &[(2, 2), (2, 0), (0, 2)]);
    assert_eq!(g.live_neighbor_count(0, 0), 3);
    // A cell far from those three sees only the ones adjacent to it.
    assert_eq!(g.live_neighbor_count(1, 1), 3);
}

#[test]
fn neighbor_count_without_wrap() {
    let g = grid_with_alive(5, 5, &[(1, 1), (1, 2), (1, 3)]);
    assert_eq!(g.live_neighbor_count(1, 2), 2);
    assert_eq!(g.live_neighbor_count(2, 2), 3);
    assert_eq!(g.live_neighbor_count(0, 2), 3);
    assert_eq!(g.live_neighbor_count(3, 2), 0);
}

#[test]
fn blinker_oscillates_on_five_by_five_torus() {
    // Horizontal blinker: row 2, columns 1..=3 Alive.
    let mut g = grid_with_alive(5, 5, &[(2, 1), (2, 2), (2, 3)]);
    g.tick();
    // Expected: vertical blinker in column 2, rows 1..=3; everything else
    // Dead. Enumerate the whole expected grid.
    let mut expected = Vec::new();
    for row in 0..5usize {
        for col in 0..5usize {
            if col == 2 && (row == 1 || row == 2 || row == 3) {
                expected.push(Cell::Alive);
            } else {
                expected.push(Cell::Dead);
            }
        }
    }
    assert_eq!(cells_of(&g), expected);
    // A second tick brings the horizontal blinker back.
    g.tick();
    let back = grid_with_alive(5, 5, &[(2, 1), (2, 2), (2, 3)]);
    assert_eq!(cells_of(&g), cells_of(&back));
}

#[test]
fn tick_is_deterministic_for_identical_grids() {
    let alive = [(0, 1), (1, 2), (2, 0), (2, 1), (2, 2), (4, 4)];
    let mut c1 = running_controller(grid_with_alive(5, 5, &alive));
    let mut c2 = running_controller(grid_with_alive(5, 5, &alive));
    c1.tick();
    c2.tick();
    assert_eq!(cells_of(&c1.grid), cells_of(&c2.grid));
    assert_eq!(c1.generation, c2.generation);
}

#[test]
fn controller_tick_advances_and_counts() {
    let mut ctrl = running_controller(grid_with_alive(5, 5, &[(2, 1), (2, 2), (2, 3)]));
    let redraw = ctrl.tick();
    assert!(redraw);
    assert_eq!(ctrl.generation, 1);
    assert!(ctrl.running);
    assert!(ctrl.render_armed);
    assert_eq!(ctrl.grid.get_cell(2, 1), Cell::Alive);
    assert_eq!(ctrl.grid.get_cell(1, 2), Cell::Dead);
}

#[test]
fn tick_while_paused_emits_one_last_redraw() {
    // Paused with rendering armed: the grid and the counter stay unchanged,
    // exactly one redraw is due, and rendering is disarmed afterwards.
    let mut ctrl = paused_controller(grid_with_alive(4, 4, &[(1, 1), (2, 2)]));
    let before = cells_of(&ctrl.grid);
    let redraw = ctrl.tick();
    assert!(redraw);
    assert_eq!(cells_of(&ctrl.grid), before);
    assert_eq!(ctrl.generation, 0);
    assert!(!ctrl.render_armed);
    // The next quantum emits no redraw at all.
    let redraw_again = ctrl.tick();
    assert!(!redraw_again);
    assert!(!ctrl.render_armed);
}

#[test]
fn clear_twice_is_idempotent() {
    let mut ctrl = running_controller(grid_with_alive(4, 4, &[(0, 0), (1, 2), (3, 3)]));
    ctrl.generation = 7;
    ctrl.clear();
    let first = (
        cells_of(&ctrl.grid),
        ctrl.generation,
        ctrl.running,
        ctrl.render_armed,
    );
    assert_eq!(first.0, vec![Cell::Dead; 16]);
    assert_eq!(first.1, 0);
    assert!(!first.2);
    assert!(first.3);
    ctrl.clear();
    let second = (
        cells_of(&ctrl.grid),
        ctrl.generation,
        ctrl.running,
        ctrl.render_armed,
    );
    assert_eq!(first, second);
}

#[test]
fn toggle_pause_and_render_twice_restores_flags() {
    for (running, armed) in [(false, false), (false, true), (true, false), (true, true)] {
        let mut ctrl = SimulationController {
            grid: Grid::new(3, 3),
            generation: 2,
            running,
            render_armed: armed,
        };
        ctrl.toggle_pause_and_render();
        assert_eq!(ctrl.running, !running);
        assert_eq!(ctrl.render_armed, !armed);
        ctrl.toggle_pause_and_render();
        assert_eq!(ctrl.running, running);
        assert_eq!(ctrl.render_armed, armed);
        assert_eq!(ctrl.generation, 2);
    }
}

#[test]
fn reset_preserves_dimensions_and_distribution() {
    let mut ctrl = paused_controller(Grid::new(32, 32));
    let mut alive_total: u64 = 0;
    let rounds: u64 = 20;
    for _ in 0..rounds {
        ctrl.generation = 9;
        ctrl.reset();
        assert_eq!(ctrl.grid.width, 32);
        assert_eq!(ctrl.grid.height, 32);
        assert_eq!(ctrl.generation, 0);
        assert!(ctrl.render_armed);
        assert!(!ctrl.running);
        alive_total += cells_of(&ctrl.grid)
            .iter()
            .filter(|&&c| c == Cell::Alive)
            .count() as u64;
    }
    // Each cell is Alive with probability 4/10; over 20480 draws the
    // fraction must land well inside [0.3, 0.5].
    let total = rounds * 32 * 32;
    assert!(alive_total * 10 > total * 3, "too few alive: {}", alive_total);
    assert!(alive_total * 10 < total * 5, "too many alive: {}", alive_total);
}

#[test]
fn edit_at_upper_bound_is_a_no_op() {
    let mut ctrl = paused_controller(grid_with_alive(4, 4, &[(1, 1)]));
    let before = cells_of(&ctrl.grid);
    ctrl.edit(Cell::Alive, 4, 0); // col == width
    assert_eq!(cells_of(&ctrl.grid), before);
    ctrl.edit(Cell::Alive, 0, 4); // row == height
    assert_eq!(cells_of(&ctrl.grid), before);
    assert_eq!(ctrl.generation, 0);
    assert!(ctrl.render_armed);
}

#[test]
fn edit_in_range_writes_exactly_one_cell() {
    let mut ctrl = paused_controller(Grid::new(4, 4));
    ctrl.edit(Cell::Alive, 3, 2);
    for row in 0..4 {
        for col in 0..4 {
            let expected = if (col, row) == (3, 2) { Cell::Alive } else { Cell::Dead };
            assert_eq!(ctrl.grid.get_cell(col, row), expected);
        }
    }
}

#[test]
fn from_cells_checks_the_invariant() {
    let ok = Grid::from_cells(2, 3, vec![Cell::Dead; 6]);
    assert!(ok.is_ok());
    let g = ok.unwrap();
    assert_eq!(g.width, 2);
    assert_eq!(g.height, 3);
    match Grid::from_cells(2, 3, vec![Cell::Dead; 5]) {
        Err(e) => assert_eq!(e, LifeError::InvariantViolation),
        Ok(_) => panic!("a short cell vector must be rejected"),
    }
    match Grid::from_cells(0, 3, vec![]) {
        Err(e) => assert_eq!(e, LifeError::InvariantViolation),
        Ok(_) => panic!("a zero dimension must be rejected"),
    }
}

#[test]
fn device_coordinates_map_by_pixel_pitch() {
    assert_eq!(map_device_to_cell(130, 70, 64), Ok((2, 1)));
    assert_eq!(map_device_to_cell(0, 0, 64), Ok((0, 0)));
    assert_eq!(map_device_to_cell(63, 64, 64), Ok((0, 1)));
    assert_eq!(map_device_to_cell(-1, 5, 64), Err(LifeError::OutOfRange));
    assert_eq!(map_device_to_cell(5, -3, 64), Err(LifeError::OutOfRange));
}

#[test]
fn pointer_edit_paints_while_paused() {
    let mut ctrl = paused_controller(Grid::new(4, 4));
    let painted = pointer_edit(&mut ctrl, true, 130, 70, 64);
    assert_eq!(painted, Ok(()));
    assert_eq!(ctrl.grid.get_cell(2, 1), Cell::Alive);
    assert!(!ctrl.render_armed, "edit session disarms rendering");
    let erased = pointer_edit(&mut ctrl, false, 130, 70, 64);
    assert_eq!(erased, Ok(()));
    assert_eq!(ctrl.grid.get_cell(2, 1), Cell::Dead);
    pointer_release(&mut ctrl);
    assert!(ctrl.render_armed);
}

#[test]
fn pointer_edit_is_ignored_while_running() {
    let mut ctrl = running_controller(Grid::new(4, 4));
    let before = cells_of(&ctrl.grid);
    let outcome = pointer_edit(&mut ctrl, true, 130, 70, 64);
    assert_eq!(outcome, Ok(()));
    assert_eq!(cells_of(&ctrl.grid), before);
    assert!(ctrl.render_armed);
}

#[test]
fn pointer_edit_rejects_negative_coordinates() {
    let mut ctrl = paused_controller(Grid::new(4, 4));
    let before = cells_of(&ctrl.grid);
    let outcome = pointer_edit(&mut ctrl, true, -7, 3, 64);
    assert_eq!(outcome, Err(LifeError::OutOfRange));
    assert_eq!(cells_of(&ctrl.grid), before);
    assert!(ctrl.render_armed, "a rejected edit changes nothing");
}

#[test]
fn hotkeys_dispatch_to_the_controller() {
    let mut ctrl = running_controller(grid_with_alive(4, 4, &[(1, 1)]));
    hotkey(&mut ctrl, Hotkey::TogglePause);
    assert!(!ctrl.running);
    assert!(!ctrl.render_armed);
    hotkey(&mut ctrl, Hotkey::Clear);
    assert_eq!(cells_of(&ctrl.grid), vec![Cell::Dead; 16]);
    assert!(!ctrl.running);
    assert!(ctrl.render_armed);
    assert_eq!(ctrl.generation, 0);
    hotkey(&mut ctrl, Hotkey::Reset);
    assert_eq!(ctrl.grid.width, 4);
    assert_eq!(ctrl.grid.height, 4);
    assert_eq!(ctrl.generation, 0);
    assert!(ctrl.render_armed);
    assert!(!ctrl.running, "reset leaves running unchanged");
}

#[test]
fn controller_new_starts_running_and_armed() {
    let ctrl = SimulationController::new(8, 8);
    assert_eq!(ctrl.grid.width, 8);
    assert_eq!(ctrl.grid.height, 8);
    assert_eq!(ctrl.generation, 0);
    assert!(ctrl.running);
    assert!(ctrl.render_armed);
    assert_eq!(cells_of(&ctrl.grid).len(), 64);
}

#[test]
fn block_is_still_life() {
    // A 2x2 block away from the edges survives unchanged.
    let mut g = grid_with_alive(5, 5, &[(1, 1), (1, 2), (2, 1), (2, 2)]);
    let before = cells_of(&g);
    g.tick();
    assert_eq!(cells_of(&g), before);
}
