//! Proved consequences of the transition rule: what one generation step
//! writes at any coordinate, the underpopulation and birth rules, and the
//! stability of the classical 2 x 2 block still life.

use vstd::prelude::*;

use crate::rules::Cell;
use crate::rules::cell_at;
use crate::rules::lemma_flat_split;
use crate::rules::lemma_row_major;
use crate::rules::lemma_wrap_offsets;
use crate::rules::live_neighbors;
use crate::rules::step_cell;
use crate::rules::step_grid;

verus! {

/// What one generation step writes at any coordinate: the rule applied to
/// the old cell there and its old neighbor count.
pub proof fn lemma_step_at(cells: Seq<Cell>, width: int, height: int, row: int, column: int)
    requires
        0 < width,
        0 < height,
        cells.len() == width * height,
        0 <= row < height,
        0 <= column < width,
    ensures
        cell_at(step_grid(cells, width, height), width, row, column) == step_cell(
            cell_at(cells, width, row, column),
            live_neighbors(cells, width, height, row, column),
        ),
{
    lemma_row_major(width, height, row, column);
}

/// Underpopulation: a live cell with fewer than two live neighbors is dead
/// in the next generation.
pub proof fn lemma_underpopulation(
    cells: Seq<Cell>,
    width: int,
    height: int,
    row: int,
    column: int,
)
    requires
        0 < width,
        0 < height,
        cells.len() == width * height,
        0 <= row < height,
        0 <= column < width,
        cell_at(cells, width, row, column) is Alive,
        live_neighbors(cells, width, height, row, column) < 2,
    ensures
        cell_at(step_grid(cells, width, height), width, row, column) is Dead,
{
    lemma_step_at(cells, width, height, row, column);
}

/// Birth: a dead cell with exactly three live neighbors is alive in the
/// next generation.
pub proof fn lemma_birth(cells: Seq<Cell>, width: int, height: int, row: int, column: int)
    requires
        0 < width,
        0 < height,
        cells.len() == width * height,
        0 <= row < height,
        0 <= column < width,
        cell_at(cells, width, row, column) is Dead,
        live_neighbors(cells, width, height, row, column) == 3,
    ensures
        cell_at(step_grid(cells, width, height), width, row, column) is Alive,
{
    lemma_step_at(cells, width, height, row, column);
}

/// A cell of the 2 x 2 block configuration: alive exactly on the four
/// cells whose top-left corner is `(row0, col0)`.
pub open spec fn block_cell(row0: int, col0: int, row: int, column: int) -> Cell {
    if (row == row0 || row == row0 + 1) && (column == col0 || column == col0 + 1) {
        Cell::Alive
    } else {
        Cell::Dead
    }
}

/// A grid that is dead everywhere except the 2 x 2 block at `(row0, col0)`.
pub open spec fn block_grid(width: int, height: int, row0: int, col0: int) -> Seq<Cell> {
    Seq::new((width * height) as nat, |i: int| block_cell(row0, col0, i / width, i % width))
}

/// Projecting the block grid at a valid coordinate gives the block cell.
proof fn lemma_block_at(width: int, height: int, row0: int, col0: int, row: int, column: int)
    requires
        0 < width,
        0 < height,
        0 <= row < height,
        0 <= column < width,
    ensures
        cell_at(block_grid(width, height, row0, col0), width, row, column) == block_cell(
            row0,
            col0,
            row,
            column,
        ),
{
    lemma_row_major(width, height, row, column);
}

/// Neighbor counts of the block configuration on a grid at least four
/// cells wide and high, the block itself not wrapping around an edge: each
/// of the four block cells sees exactly three live neighbors, and every
/// other cell sees fewer than three.
proof fn lemma_block_neighbors(
    width: int,
    height: int,
    row0: int,
    col0: int,
    row: int,
    column: int,
)
    requires
        0 <= row0,
        row0 + 1 < height,
        4 <= height,
        0 <= col0,
        col0 + 1 < width,
        4 <= width,
        0 <= row < height,
        0 <= column < width,
    ensures
        block_cell(row0, col0, row, column) is Alive ==> live_neighbors(
            block_grid(width, height, row0, col0),
            width,
            height,
            row,
            column,
        ) == 3,
        block_cell(row0, col0, row, column) is Dead ==> live_neighbors(
            block_grid(width, height, row0, col0),
            width,
            height,
            row,
            column,
        ) < 3,
{
    lemma_wrap_offsets(row, height);
    lemma_wrap_offsets(column, width);
    let up = (row + height - 1) % height;
    let down = (row + 1) % height;
    let left = (column + width - 1) % width;
    let right = (column + 1) % width;
    lemma_block_at(width, height, row0, col0, up, left);
    lemma_block_at(width, height, row0, col0, up, column);
    lemma_block_at(width, height, row0, col0, up, right);
    lemma_block_at(width, height, row0, col0, row, left);
    lemma_block_at(width, height, row0, col0, row, right);
    lemma_block_at(width, height, row0, col0, down, left);
    lemma_block_at(width, height, row0, col0, down, column);
    lemma_block_at(width, height, row0, col0, down, right);
}

/// Still-life stability of the 2 x 2 block: on a grid at least four cells
/// wide and high, with the block itself not wrapping around an edge and
/// every other cell dead, one generation leaves the whole grid unchanged.
pub proof fn lemma_block_still_life(width: int, height: int, row0: int, col0: int)
    requires
        0 <= row0,
        row0 + 1 < height,
        4 <= height,
        0 <= col0,
        col0 + 1 < width,
        4 <= width,
    ensures
        step_grid(block_grid(width, height, row0, col0), width, height) == block_grid(
            width,
            height,
            row0,
            col0,
        ),
{
    let cells = block_grid(width, height, row0, col0);
    assert forall|i: int| 0 <= i < width * height implies step_grid(cells, width, height)[i]
        == cells[i] by {
        lemma_flat_split(width, height, i);
        let r = i / width;
        let c = i % width;
        lemma_block_neighbors(width, height, row0, col0, r, c);
        lemma_step_at(cells, width, height, r, c);
    }
    assert(step_grid(cells, width, height) =~= cells);
}

/// The grid after `n` generation steps.
pub open spec fn step_grid_n(cells: Seq<Cell>, width: int, height: int, n: nat) -> Seq<Cell>
    decreases n,
{
    if n == 0 {
        cells
    } else {
        step_grid(step_grid_n(cells, width, height, (n - 1) as nat), width, height)
    }
}

/// A grid that one generation leaves unchanged stays unchanged under any
/// number of generations.
pub proof fn lemma_fixed_point_forever(cells: Seq<Cell>, width: int, height: int, n: nat)
    requires
        step_grid(cells, width, height) == cells,
    ensures
        step_grid_n(cells, width, height, n) == cells,
    decreases n,
{
    if n > 0 {
        lemma_fixed_point_forever(cells, width, height, (n - 1) as nat);
    }
}

/// The 2 x 2 block survives any number of generations unchanged; in
/// particular, stepping twice gives the same grid as stepping once.
pub proof fn lemma_block_forever(width: int, height: int, row0: int, col0: int, n: nat)
    requires
        0 <= row0,
        row0 + 1 < height,
        4 <= height,
        0 <= col0,
        col0 + 1 < width,
        4 <= width,
    ensures
        step_grid_n(block_grid(width, height, row0, col0), width, height, n) == block_grid(
            width,
            height,
            row0,
            col0,
        ),
{
    lemma_block_still_life(width, height, row0, col0);
    lemma_fixed_point_forever(block_grid(width, height, row0, col0), width, height, n);
}

} // verus!
