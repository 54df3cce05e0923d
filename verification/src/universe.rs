//! The `Universe` aggregate: fixed grid dimensions and the cell buffer for
//! exactly one fully computed generation, with the seeded constructor, the
//! toroidal neighbor count, and the double-buffered generation step.

use vstd::prelude::*;

use crate::rules::Cell;
use crate::rules::cell_at;
use crate::rules::cell_weight;
use crate::rules::flat_index;
use crate::rules::lemma_row_major;
use crate::rules::lemma_wrap_offsets;
use crate::rules::live_neighbors;
use crate::rules::seed_cell;
use crate::rules::step_cell;
use crate::rules::step_grid;

verus! {

/// The one failure the component can report: construction with a
/// non-positive width or height.
#[derive(Clone, Copy, Debug, PartialEq, Eq, Structural)]
pub enum UniverseError {
    InvalidDimension,
}

/// A Game of Life universe on a fixed-size toroidal grid.
///
/// The dimensions are fixed for the object's lifetime; the buffer always
/// holds exactly `width * height` cells in row-major order, and always a
/// fully computed generation: `tick` builds the next generation in a fresh
/// buffer and installs it whole, so no reader ever observes a mix of two
/// generations.
#[derive(Debug)]
pub struct Universe {
    width: i32,
    height: i32,
    cells: Vec<Cell>,
}

impl Universe {
    /// The grid's width, as a mathematical integer.
    pub closed spec fn spec_width(self) -> int {
        self.width as int
    }

    /// The grid's height, as a mathematical integer.
    pub closed spec fn spec_height(self) -> int {
        self.height as int
    }

    /// The current generation's cells, row-major.
    pub closed spec fn grid(self) -> Seq<Cell> {
        self.cells@
    }

    /// Structural invariant: positive dimensions whose product fits the
    /// index arithmetic, and a buffer of exactly `width * height` cells.
    pub open spec fn wf(self) -> bool {
        &&& 0 < self.spec_width()
        &&& 0 < self.spec_height()
        &&& self.spec_width() * self.spec_height() <= i32::MAX as int
        &&& self.grid().len() == self.spec_width() * self.spec_height()
    }

    /// The fixed width.
    pub fn width(&self) -> (w: i32)
        ensures
            w as int == self.spec_width(),
    {
        self.width
    }

    /// The fixed height.
    pub fn height(&self) -> (h: i32)
        ensures
            h as int == self.spec_height(),
    {
        self.height
    }

    /// A read-only view of the current generation's buffer.
    pub fn cells(&self) -> (cells: &Vec<Cell>)
        ensures
            cells@ == self.grid(),
    {
        &self.cells
    }

    /// Builds a `width * height` universe holding the deterministic seed
    /// pattern: the cell at flat index `i` is alive iff `i % 2 == 0` or
    /// `i % 7 == 0`. Rejects non-positive dimensions, and nothing else.
    pub fn new(width: i32, height: i32) -> (result: Result<Universe, UniverseError>)
        requires
            0 < width && 0 < height ==> width as int * height as int <= i32::MAX as int,
        ensures
            (result is Ok) <==> (0 < width && 0 < height),
            result is Err ==> result == Result::<Universe, UniverseError>::Err(
                UniverseError::InvalidDimension,
            ),
            result matches Ok(u) ==> {
                &&& u.wf()
                &&& u.spec_width() == width as int
                &&& u.spec_height() == height as int
                &&& u.grid().len() == width as int * height as int
                &&& forall|i: int| 0 <= i < u.grid().len() ==> u.grid()[i] == seed_cell(i)
            },
    {
        if width <= 0 || height <= 0 {
            return Err(UniverseError::InvalidDimension);
        }
        let total: usize = (width as usize) * (height as usize);
        let mut cells: Vec<Cell> = Vec::new();
        let mut i: usize = 0;
        while i < total
            invariant
                total == width as int * height as int,
                i <= total,
                cells@.len() == i as int,
                forall|j: int| 0 <= j < i as int ==> cells@[j] == seed_cell(j),
            decreases total - i,
        {
            if i % 2 == 0 || i % 7 == 0 {
                cells.push(Cell::Alive);
            } else {
                cells.push(Cell::Dead);
            }
            i = i + 1;
        }
        Ok(Universe { width, height, cells })
    }

    /// Builds a universe from an explicit row-major buffer whose length
    /// already agrees with the given positive dimensions.
    pub fn from_cells(width: i32, height: i32, cells: Vec<Cell>) -> (u: Universe)
        requires
            0 < width,
            0 < height,
            width as int * height as int <= i32::MAX as int,
            cells@.len() == width as int * height as int,
        ensures
            u.wf(),
            u.spec_width() == width as int,
            u.spec_height() == height as int,
            u.grid() == cells@,
    {
        Universe { width, height, cells }
    }

    /// Flat index of `(row, column)`, both already reduced into range by
    /// the caller; performs no wraparound of its own.
    fn get_index(&self, row: i32, column: i32) -> (idx: usize)
        requires
            self.wf(),
            0 <= row < self.spec_height(),
            0 <= column < self.spec_width(),
        ensures
            idx as int == flat_index(self.spec_width(), row as int, column as int),
            idx < self.grid().len(),
    {
        proof {
            lemma_row_major(self.spec_width(), self.spec_height(), row as int, column as int);
        }
        (row * self.width + column) as usize
    }

    /// The neighbor-count weight of the cell at `(row, column)`: one if it
    /// is alive, zero if it is dead.
    fn weight_at(&self, row: i32, column: i32) -> (w: u8)
        requires
            self.wf(),
            0 <= row < self.spec_height(),
            0 <= column < self.spec_width(),
        ensures
            w as int == cell_weight(
                cell_at(self.grid(), self.spec_width(), row as int, column as int),
            ),
            w <= 1,
    {
        let idx = self.get_index(row, column);
        match self.cells[idx] {
            Cell::Alive => 1,
            Cell::Dead => 0,
        }
    }

    /// Counts the live cells among the eight toroidal neighbors of
    /// `(row, column)`: offsets of -1, 0, +1 in each direction, the (0, 0)
    /// offset excluded, each wrapped modularly so the top edge is adjacent
    /// to the bottom edge and the left edge to the right edge.
    pub fn live_neighbor_count(&self, row: i32, column: i32) -> (count: u8)
        requires
            self.wf(),
            0 <= row < self.spec_height(),
            0 <= column < self.spec_width(),
        ensures
            count as int == live_neighbors(
                self.grid(),
                self.spec_width(),
                self.spec_height(),
                row as int,
                column as int,
            ),
            count <= 8,
    {
        proof {
            lemma_wrap_offsets(row as int, self.spec_height());
            lemma_wrap_offsets(column as int, self.spec_width());
        }
        let up = if row == 0 {
            self.height - 1
        } else {
            row - 1
        };
        let down = if row == self.height - 1 {
            0
        } else {
            row + 1
        };
        let left = if column == 0 {
            self.width - 1
        } else {
            column - 1
        };
        let right = if column == self.width - 1 {
            0
        } else {
            column + 1
        };
        self.weight_at(up, left) + self.weight_at(up, column) + self.weight_at(up, right)
            + self.weight_at(row, left) + self.weight_at(row, right) + self.weight_at(down, left)
            + self.weight_at(down, column) + self.weight_at(down, right)
    }

    /// Advances the universe by exactly one generation: every cell is
    /// stepped by the rule, all eight-neighbor counts taken from the old
    /// generation. The new generation is built in a fresh buffer and
    /// installed whole, so the transition is atomic to every reader.
    pub fn tick(&mut self)
        requires
            old(self).wf(),
        ensures
            final(self).wf(),
            final(self).spec_width() == old(self).spec_width(),
            final(self).spec_height() == old(self).spec_height(),
            final(self).grid() == step_grid(
                old(self).grid(),
                old(self).spec_width(),
                old(self).spec_height(),
            ),
    {
        let ghost w = self.spec_width();
        let ghost h = self.spec_height();
        let ghost before = self.grid();
        let mut next: Vec<Cell> = Vec::new();
        let mut row: i32 = 0;
        while row < self.height
            invariant
                self == old(self),
                self.wf(),
                w == self.spec_width(),
                h == self.spec_height(),
                before == self.grid(),
                0 <= row,
                row as int <= h,
                next@.len() == row as int * w,
                forall|j: int|
                    0 <= j < next@.len() ==> next@[j] == step_cell(
                        before[j],
                        live_neighbors(before, w, h, j / w, j % w),
                    ),
            decreases h - row as int,
        {
            let mut column: i32 = 0;
            while column < self.width
                invariant
                    self == old(self),
                    self.wf(),
                    w == self.spec_width(),
                    h == self.spec_height(),
                    before == self.grid(),
                    0 <= row,
                    (row as int) < h,
                    0 <= column,
                    column as int <= w,
                    next@.len() == row as int * w + column as int,
                    forall|j: int|
                        0 <= j < next@.len() ==> next@[j] == step_cell(
                            before[j],
                            live_neighbors(before, w, h, j / w, j % w),
                        ),
                decreases w - column as int,
            {
                proof {
                    lemma_row_major(w, h, row as int, column as int);
                }
                let idx = self.get_index(row, column);
                let cell = self.cells[idx];
                let live = self.live_neighbor_count(row, column);
                let stepped = match cell {
                    Cell::Alive => if live == 2 || live == 3 {
                        Cell::Alive
                    } else {
                        Cell::Dead
                    },
                    Cell::Dead => if live == 3 {
                        Cell::Alive
                    } else {
                        Cell::Dead
                    },
                };
                next.push(stepped);
                column = column + 1;
            }
            proof {
                assert((row as int + 1) * w == row as int * w + w) by (nonlinear_arith);
            }
            row = row + 1;
        }
        proof {
            assert(h * w == w * h) by (nonlinear_arith);
            assert(next@ =~= step_grid(before, w, h));
        }
        self.cells = next;
    }
}

impl Default for Universe {
    /// The simulation's standard starting point: the seeded 128 x 128 grid.
    fn default() -> (u: Universe)
        ensures
            u.wf(),
            u.spec_width() == 128,
            u.spec_height() == 128,
            forall|i: int| 0 <= i < u.grid().len() ==> u.grid()[i] == seed_cell(i),
    {
        match Universe::new(128, 128) {
            Ok(u) => u,
            Err(_) => vstd::pervasive::unreached(),
        }
    }
}

} // verus!
