//! The automaton's rule, stated as specification functions: the seed
//! pattern, row-major indexing, toroidal neighbor counting, and the
//! per-cell transition, together with the arithmetic lemmas the rest of
//! the crate needs to reason about them.

use vstd::prelude::*;

verus! {

/// One cell of the automaton. Exactly two states exist.
#[derive(Clone, Copy, Debug, PartialEq, Eq, Structural)]
pub enum Cell {
    Dead,
    Alive,
}

/// What one cell contributes to a neighbor count: a live cell counts one,
/// a dead cell nothing.
pub open spec fn cell_weight(c: Cell) -> int {
    match c {
        Cell::Alive => 1,
        Cell::Dead => 0,
    }
}

/// The deterministic seed pattern: the cell at flat index `i` starts alive
/// iff `i` is divisible by two or by seven.
pub open spec fn seed_cell(i: int) -> Cell {
    if i % 2 == 0 || i % 7 == 0 {
        Cell::Alive
    } else {
        Cell::Dead
    }
}

/// Row-major flat index of `(row, column)` on a grid of the given width.
pub open spec fn flat_index(width: int, row: int, column: int) -> int {
    row * width + column
}

/// The cell stored at `(row, column)` of a row-major grid.
pub open spec fn cell_at(cells: Seq<Cell>, width: int, row: int, column: int) -> Cell {
    cells[flat_index(width, row, column)]
}

/// Number of live cells among the eight neighbors of `(row, column)` on a
/// torus: row and column offsets of -1 and +1 wrap modularly, a -1 offset
/// being written as adding `height - 1` (or `width - 1`) so the arithmetic
/// stays in non-negative integers.
pub open spec fn live_neighbors(
    cells: Seq<Cell>,
    width: int,
    height: int,
    row: int,
    column: int,
) -> int {
    let up = (row + height - 1) % height;
    let down = (row + 1) % height;
    let left = (column + width - 1) % width;
    let right = (column + 1) % width;
    cell_weight(cell_at(cells, width, up, left)) + cell_weight(cell_at(cells, width, up, column))
        + cell_weight(cell_at(cells, width, up, right)) + cell_weight(
        cell_at(cells, width, row, left),
    ) + cell_weight(cell_at(cells, width, row, right)) + cell_weight(
        cell_at(cells, width, down, left),
    ) + cell_weight(cell_at(cells, width, down, column)) + cell_weight(
        cell_at(cells, width, down, right),
    )
}

/// The transition rule for one cell: a live cell survives exactly with two
/// or three live neighbors; a dead cell comes alive exactly with three;
/// every other cell is dead in the next generation.
pub open spec fn step_cell(c: Cell, live: int) -> Cell {
    match c {
        Cell::Alive => if live == 2 || live == 3 {
            Cell::Alive
        } else {
            Cell::Dead
        },
        Cell::Dead => if live == 3 {
            Cell::Alive
        } else {
            Cell::Dead
        },
    }
}

/// One full generation: every cell stepped by the rule, with all neighbor
/// counts taken from the old grid.
pub open spec fn step_grid(cells: Seq<Cell>, width: int, height: int) -> Seq<Cell> {
    Seq::new(
        (width * height) as nat,
        |i: int| step_cell(cells[i], live_neighbors(cells, width, height, i / width, i % width)),
    )
}

/// Row-major indexing of a valid `(row, column)` lands inside the grid, and
/// the flat index decomposes back into its row and column.
pub proof fn lemma_row_major(width: int, height: int, row: int, column: int)
    by (nonlinear_arith)
    requires
        0 < width,
        0 < height,
        0 <= row < height,
        0 <= column < width,
    ensures
        0 <= row * width + column < width * height,
        (row * width + column) / width == row,
        (row * width + column) % width == column,
{
}

/// Every flat index inside the grid decomposes into a valid row and column.
pub proof fn lemma_flat_split(width: int, height: int, i: int)
    by (nonlinear_arith)
    requires
        0 < width,
        0 < height,
        0 <= i < width * height,
    ensures
        0 <= i / width < height,
        0 <= i % width < width,
        i == (i / width) * width + i % width,
{
}

/// The wrapped coordinate one step up (or left) and one step down (or
/// right) of `x` on a ring of size `n`, written without subtraction below
/// zero: adding `n - 1` is stepping back by one.
pub proof fn lemma_wrap_offsets(x: int, n: int)
    by (nonlinear_arith)
    requires
        0 < n,
        0 <= x < n,
    ensures
        (x + n - 1) % n == (if x == 0 { n - 1 } else { x - 1 }),
        (x + 1) % n == (if x == n - 1 { 0 } else { x + 1 }),
{
}

} // verus!
