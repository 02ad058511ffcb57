//! The toroidal cell matrix: storage, neighbor counting and the
//! one-generation transition rule.

use vstd::prelude::*;
use vstd::arithmetic::div_mod::{lemma_small_mod, lemma_mod_self_0, lemma_mod_sub_multiples_vanish,
    lemma_multiply_divide_lt, lemma_mod_bound, lemma_fundamental_div_mod_converse};
use crate::LifeError;

verus! {

/// The two states a cell of the automaton can take.
#[derive(Copy, Clone, PartialEq, Eq, Structural, Debug)]
pub enum Cell {
    Alive,
    Dead,
}

/// A fixed-size toroidal grid of cells, stored row-major: the cell at
/// `(row, col)` lives at index `row * width + col`.
pub struct Grid {
    pub width: usize,
    pub height: usize,
    pub cells: Vec<Cell>,
}

/// Index arithmetic: every in-range `(row, col)` maps below `width * height`.
pub proof fn lemma_index_in_range(w: int, h: int, r: int, c: int)
    requires
        1 <= w,
        1 <= h,
        0 <= r < h,
        0 <= c < w,
    ensures
        0 <= r * w + c < w * h,
{
    assert(0 <= r * w + c < w * h) by (nonlinear_arith)
        requires
            0 <= r < h,
            0 <= c < w,
            1 <= w,
    ;
}

/// Index arithmetic: the row-major mapping is injective on in-range
/// coordinates.
pub proof fn lemma_index_injective(w: int, r1: int, c1: int, r2: int, c2: int)
    requires
        1 <= w,
        0 <= c1 < w,
        0 <= c2 < w,
        r1 * w + c1 == r2 * w + c2,
    ensures
        r1 == r2,
        c1 == c2,
{
    assert(r1 == r2 && c1 == c2) by (nonlinear_arith)
        requires
            1 <= w,
            0 <= c1 < w,
            0 <= c2 < w,
            r1 * w + c1 == r2 * w + c2,
    ;
}

/// Stepping one position down from an in-range coordinate, Euclidean mod
/// wraps `0` to `n - 1`.
pub proof fn lemma_dec_mod(x: int, n: int)
    requires
        1 <= n,
        0 <= x < n,
    ensures
        (x - 1) % n == if x == 0 { n - 1 } else { x - 1 },
{
    if x == 0 {
        lemma_mod_sub_multiples_vanish(n - 1, n);
        lemma_small_mod((n - 1) as nat, n as nat);
    } else {
        lemma_small_mod((x - 1) as nat, n as nat);
    }
}

/// Stepping one position up from an in-range coordinate, Euclidean mod
/// wraps `n - 1` to `0`.
pub proof fn lemma_inc_mod(x: int, n: int)
    requires
        1 <= n,
        0 <= x < n,
    ensures
        (x + 1) % n == if x == n - 1 { 0 } else { x + 1 },
{
    if x == n - 1 {
        lemma_mod_self_0(n);
    } else {
        lemma_small_mod((x + 1) as nat, n as nat);
    }
}

/// An in-range coordinate is left unchanged by Euclidean mod.
pub proof fn lemma_id_mod(x: int, n: int)
    requires
        1 <= n,
        0 <= x < n,
    ensures
        x % n == x,
{
    lemma_small_mod(x as nat, n as nat);
}

/// The transition rule of the automaton, applied to one cell with its live
/// neighbor count: an Alive cell survives with 2 or 3 live neighbors and
/// otherwise dies; a Dead cell is born with exactly 3 live neighbors and
/// otherwise stays unchanged.
pub open spec fn next_cell(cell: Cell, live_neighbors: int) -> Cell {
    match cell {
        Cell::Alive => if live_neighbors == 2 || live_neighbors == 3 {
            Cell::Alive
        } else {
            Cell::Dead
        },
        Cell::Dead => if live_neighbors == 3 {
            Cell::Alive
        } else {
            cell
        },
    }
}

/// One synchronous generation: `post` holds, for every cell, the transition
/// rule applied to `pre`'s cell and `pre`'s neighbor count, with the
/// dimensions unchanged.
pub open spec fn grid_step(pre: Grid, post: Grid) -> bool {
    &&& post.width == pre.width
    &&& post.height == pre.height
    &&& post.cells@.len() == pre.cells@.len()
    &&& forall|r: int, c: int|
        0 <= r < pre.height && 0 <= c < pre.width ==> post.cell_at(r, c) == next_cell(
            pre.cell_at(r, c),
            pre.neighbor_count(r, c),
        )
}

impl Grid {
    /// The grid invariant: positive dimensions, fixed at construction, and
    /// exactly `width * height` stored cells.
    pub open spec fn wf(self) -> bool {
        &&& 1 <= self.width
        &&& 1 <= self.height
        &&& self.width * self.height <= usize::MAX
        &&& self.cells@.len() == self.width * self.height
    }

    /// The cell stored at in-range `(row, col)`.
    pub open spec fn cell_at(self, row: int, col: int) -> Cell {
        self.cells@[row * self.width + col]
    }

    /// 1 when the in-range cell at `(row, col)` is Alive, else 0.
    pub open spec fn live_flag(self, row: int, col: int) -> int {
        if self.cell_at(row, col) is Alive {
            1
        } else {
            0
        }
    }

    /// 1 when the cell at `(row, col)`, wrapped toroidally, is Alive, else 0.
    /// The coordinates may lie outside the grid; each is reduced mod the
    /// matching dimension.
    pub open spec fn live_at(self, row: int, col: int) -> int {
        self.live_flag(row % (self.height as int), col % (self.width as int))
    }

    /// The Moore neighborhood count of in-range `(row, col)`: the 8
    /// surrounding positions with toroidal wraparound, so the count is
    /// defined for every in-range cell and lies in `[0, 8]`.
    #[verifier::opaque]
    pub open spec fn neighbor_count(self, row: int, col: int) -> int {
        self.live_at(row - 1, col - 1) + self.live_at(row - 1, col) + self.live_at(row - 1, col + 1)
            + self.live_at(row, col - 1) + self.live_at(row, col + 1) + self.live_at(
            row + 1,
            col - 1,
        ) + self.live_at(row + 1, col) + self.live_at(row + 1, col + 1)
    }

    /// A grid of the given dimensions with every cell Dead.
    pub fn new(width: usize, height: usize) -> (g: Grid)
        requires
            1 <= width,
            1 <= height,
            width * height <= usize::MAX,
        ensures
            g.wf(),
            g.width == width,
            g.height == height,
            forall|r: int, c: int|
                0 <= r < height && 0 <= c < width ==> g.cell_at(r, c) == Cell::Dead,
    {
        let total: usize = width * height;
        let mut cells: Vec<Cell> = Vec::new();
        let mut i: usize = 0;
        while i < total
            invariant
                i <= total,
                cells@.len() == i,
                forall|k: int| 0 <= k < i ==> cells@[k] == Cell::Dead,
            decreases total - i,
        {
            cells.push(Cell::Dead);
            i = i + 1;
        }
        let g = Grid { width, height, cells };
        proof {
            assert forall|r: int, c: int|
                0 <= r < height && 0 <= c < width implies g.cell_at(r, c) == Cell::Dead by {
                lemma_index_in_range(width as int, height as int, r, c);
            }
        }
        g
    }

    /// A grid of the given dimensions built from the given cells, row-major.
    /// Rejected with `InvariantViolation` when the cell count does not match
    /// the dimensions or a dimension is zero.
    pub fn from_cells(width: usize, height: usize, cells: Vec<Cell>) -> (result: Result<
        Grid,
        LifeError,
    >)
        ensures
            match result {
                Ok(g) => {
                    &&& 1 <= width
                    &&& 1 <= height
                    &&& cells@.len() == width * height
                    &&& g.wf()
                    &&& g.width == width
                    &&& g.height == height
                    &&& g.cells@ == cells@
                },
                Err(e) => {
                    &&& e == LifeError::InvariantViolation
                    &&& !(1 <= width && 1 <= height && cells@.len() == width * height)
                },
            },
    {
        if width == 0 || height == 0 {
            return Err(LifeError::InvariantViolation);
        }
        let len = cells.len();
        match width.checked_mul(height) {
            Some(total) => {
                if len == total {
                    Ok(Grid { width, height, cells })
                } else {
                    Err(LifeError::InvariantViolation)
                }
            },
            None => {
                // The product overflows usize, so no vector can hold that
                // many cells.
                Err(LifeError::InvariantViolation)
            },
        }
    }

    /// The row-major storage index of in-range `(row, col)`.
    fn get_index(&self, row: usize, col: usize) -> (idx: usize)
        requires
            self.wf(),
            row < self.height,
            col < self.width,
        ensures
            idx == row * self.width + col,
            idx < self.cells@.len(),
    {
        proof {
            lemma_index_in_range(self.width as int, self.height as int, row as int, col as int);
        }
        row * self.width + col
    }

    /// The cell at in-range `(col, row)`.
    pub fn get_cell(&self, col: usize, row: usize) -> (cell: Cell)
        requires
            self.wf(),
            col < self.width,
            row < self.height,
        ensures
            cell == self.cell_at(row as int, col as int),
    {
        let idx = self.get_index(row, col);
        self.cells[idx]
    }

    /// Overwrite the cell at in-range `(col, row)`; every other cell and the
    /// dimensions are unchanged.
    pub fn set_cell(&mut self, cell: Cell, col: usize, row: usize)
        requires
            old(self).wf(),
            col < old(self).width,
            row < old(self).height,
        ensures
            final(self).wf(),
            final(self).width == old(self).width,
            final(self).height == old(self).height,
            final(self).cell_at(row as int, col as int) == cell,
            forall|r: int, c: int|
                0 <= r < old(self).height && 0 <= c < old(self).width && !(r == row && c == col)
                    ==> final(self).cell_at(r, c) == old(self).cell_at(r, c),
    {
        let idx = self.get_index(row, col);
        self.cells.set(idx, cell);
        proof {
            let w = old(self).width as int;
            let h = old(self).height as int;
            assert forall|r: int, c: int|
                0 <= r < old(self).height && 0 <= c < old(self).width && !(r == row && c == col)
                    implies final(self).cell_at(r, c) == old(self).cell_at(r, c) by {
                lemma_index_in_range(w, h, r, c);
                if r * w + c == row as int * w + col as int {
                    lemma_index_injective(w, r, c, row as int, col as int);
                }
            }
        }
    }

    /// 1 when the in-range cell at `(row, col)` is Alive, else 0.
    fn count_at(&self, row: usize, col: usize) -> (n: u8)
        requires
            self.wf(),
            row < self.height,
            col < self.width,
        ensures
            n as int == self.live_flag(row as int, col as int),
            n <= 1,
    {
        let idx = self.get_index(row, col);
        match self.cells[idx] {
            Cell::Alive => 1,
            Cell::Dead => 0,
        }
    }

    /// The Moore neighborhood count of in-range `(row, col)`, wrapping
    /// toroidally at every edge.
    pub fn live_neighbor_count(&self, row: usize, col: usize) -> (n: u8)
        requires
            self.wf(),
            row < self.height,
            col < self.width,
        ensures
            n as int == self.neighbor_count(row as int, col as int),
            n <= 8,
    {
        let up = if row == 0 {
            self.height - 1
        } else {
            row - 1
        };
        let down = if row + 1 == self.height {
            0
        } else {
            row + 1
        };
        let left = if col == 0 {
            self.width - 1
        } else {
            col - 1
        };
        let right = if col + 1 == self.width {
            0
        } else {
            col + 1
        };
        proof {
            reveal(Grid::neighbor_count);
            let h = self.height as int;
            let w = self.width as int;
            let r = row as int;
            let c = col as int;
            lemma_dec_mod(r, h);
            lemma_inc_mod(r, h);
            lemma_id_mod(r, h);
            lemma_dec_mod(c, w);
            lemma_inc_mod(c, w);
            lemma_id_mod(c, w);
            assert(self.live_at(r - 1, c - 1) == self.live_flag(up as int, left as int));
            assert(self.live_at(r - 1, c) == self.live_flag(up as int, c));
            assert(self.live_at(r - 1, c + 1) == self.live_flag(up as int, right as int));
            assert(self.live_at(r, c - 1) == self.live_flag(r, left as int));
            assert(self.live_at(r, c + 1) == self.live_flag(r, right as int));
            assert(self.live_at(r + 1, c - 1) == self.live_flag(down as int, left as int));
            assert(self.live_at(r + 1, c) == self.live_flag(down as int, c));
            assert(self.live_at(r + 1, c + 1) == self.live_flag(down as int, right as int));
        }
        let n1 = self.count_at(up, left);
        let n2 = self.count_at(up, col);
        let n3 = self.count_at(up, right);
        let n4 = self.count_at(row, left);
        let n5 = self.count_at(row, right);
        let n6 = self.count_at(down, left);
        let n7 = self.count_at(down, col);
        let n8 = self.count_at(down, right);
        n1 + n2 + n3 + n4 + n5 + n6 + n7 + n8
    }

    /// One synchronous generation: every cell's next state is computed from a
    /// full snapshot of the current grid, then the grid is replaced, so no
    /// update observes another cell's already-updated value.
    #[verifier::loop_isolation(false)]
    pub fn tick(&mut self)
        requires
            old(self).wf(),
        ensures
            final(self).wf(),
            final(self).width == old(self).width,
            final(self).height == old(self).height,
            grid_step(*old(self), *final(self)),
    {
        let width = self.width;
        let height = self.height;
        let total = self.cells.len();
        let ghost w = width as int;
        let mut next: Vec<Cell> = Vec::new();
        let mut k: usize = 0;
        while k < total
            invariant
                k <= total,
                next@.len() == k,
                forall|j: int|
                    0 <= j < k ==> next@[j] == next_cell(
                        self.cell_at(j / w, j % w),
                        self.neighbor_count(j / w, j % w),
                    ),
            decreases total - k,
        {
            proof {
                lemma_multiply_divide_lt(k as int, w, height as int);
                lemma_mod_bound(k as int, w);
            }
            let row = k / width;
            let col = k % width;
            let cell = self.get_cell(col, row);
            let live_neighbors = self.live_neighbor_count(row, col);
            let next_value = next_cell_value(cell, live_neighbors);
            next.push(next_value);
            k = k + 1;
        }
        proof {
            assert forall|r: int, c: int|
                0 <= r < height && 0 <= c < width implies next@[r * w + c] == next_cell(
                self.cell_at(r, c),
                self.neighbor_count(r, c),
            ) by {
                lemma_index_in_range(w, height as int, r, c);
                lemma_fundamental_div_mod_converse(r * w + c, w, r, c);
            }
        }
        self.cells = next;
    }

    /// Replace every cell with Dead; the dimensions are unchanged.
    #[verifier::loop_isolation(false)]
    pub fn fill_dead(&mut self)
        requires
            old(self).wf(),
        ensures
            final(self).wf(),
            final(self).width == old(self).width,
            final(self).height == old(self).height,
            forall|r: int, c: int|
                0 <= r < old(self).height && 0 <= c < old(self).width ==> final(self).cell_at(r, c)
                    == Cell::Dead,
    {
        let total = self.cells.len();
        let mut i: usize = 0;
        while i < total
            invariant
                i <= total,
                self.width == old(self).width,
                self.height == old(self).height,
                self.cells@.len() == total,
                forall|k: int| 0 <= k < i ==> self.cells@[k] == Cell::Dead,
            decreases total - i,
        {
            self.cells.set(i, Cell::Dead);
            i = i + 1;
        }
        proof {
            assert forall|r: int, c: int|
                0 <= r < old(self).height && 0 <= c < old(self).width implies final(self).cell_at(
                r,
                c,
            ) == Cell::Dead by {
                lemma_index_in_range(self.width as int, self.height as int, r, c);
            }
        }
    }

    /// Replace every cell with an independent random draw: Alive with the
    /// fixed probability 4/10, Dead otherwise. The dimensions are unchanged.
    pub fn fill_random(&mut self)
        requires
            old(self).wf(),
        ensures
            final(self).wf(),
            final(self).width == old(self).width,
            final(self).height == old(self).height,
    {
        let cells = gen_map(self.width, self.height);
        self.cells = cells;
    }

    /// A grid of the given dimensions filled by `fill_random`'s distribution.
    pub fn new_random(width: usize, height: usize) -> (g: Grid)
        requires
            1 <= width,
            1 <= height,
            width * height <= usize::MAX,
        ensures
            g.wf(),
            g.width == width,
            g.height == height,
    {
        let cells = gen_map(width, height);
        Grid { width, height, cells }
    }
}

/// The transition rule of the automaton as executable code; it returns
/// exactly `next_cell` of the arguments.
pub fn next_cell_value(cell: Cell, live_neighbors: u8) -> (next: Cell)
    ensures
        next == next_cell(cell, live_neighbors as int),
{
    match cell {
        Cell::Alive => {
            if live_neighbors < 2 {
                Cell::Dead
            } else if live_neighbors == 2 || live_neighbors == 3 {
                Cell::Alive
            } else {
                Cell::Dead
            }
        },
        Cell::Dead => {
            if live_neighbors == 3 {
                Cell::Alive
            } else {
                Cell::Dead
            }
        },
    }
}

/// The cell a single uniform draw over `[0, 10)` produces: Alive exactly
/// when the draw exceeds 5, so Alive on 4 of the 10 outcomes.
pub open spec fn cell_of_digit(r: int) -> Cell {
    if r > 5 {
        Cell::Alive
    } else {
        Cell::Dead
    }
}

/// Turn one drawn digit into a cell; it returns exactly `cell_of_digit` of
/// the draw.
pub fn cell_from_digit(r: u32) -> (cell: Cell)
    ensures
        cell == cell_of_digit(r as int),
{
    if r > 5 {
        Cell::Alive
    } else {
        Cell::Dead
    }
}

/// Relies on rand::random_range over the thread-local generator: a uniform
/// draw from the given range, here stated only as lying in `[0, 10)`. The
/// range is non-empty, so the call does not panic.
#[verifier::external_body]
fn random_digit() -> (r: u32)
    ensures
        r < 10,
{
    rand::random_range(0u32..10u32)
}

/// One random cell: `cell_of_digit` of a fresh uniform draw over `[0, 10)`,
/// so Alive with probability 4/10, whatever the draw returns.
fn random_cell() -> Cell {
    let r = random_digit();
    cell_from_digit(r)
}

/// A row-major vector of `width * height` independently random cells.
#[verifier::loop_isolation(false)]
fn gen_map(width: usize, height: usize) -> (cells: Vec<Cell>)
    requires
        width * height <= usize::MAX,
    ensures
        cells@.len() == width * height,
{
    let total: usize = width * height;
    let mut cells: Vec<Cell> = Vec::new();
    let mut i: usize = 0;
    while i < total
        invariant
            i <= total,
            cells@.len() == i,
        decreases total - i,
    {
        let cell = random_cell();
        cells.push(cell);
        i = i + 1;
    }
    cells
}

} // verus!
