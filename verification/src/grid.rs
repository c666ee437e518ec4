//! The occupancy grid: a runtime-sized 2D array of cells, where a non-zero
//! cell is a wall and zero is open space.

use vstd::prelude::*;

verus! {

/// Widest grid the engine accepts, in cells per side.
pub const GRID_DIM_MAX: usize = 4096;

/// A rectangular occupancy grid stored row-major.
pub struct Grid {
    width: usize,
    height: usize,
    cells: Vec<i32>,
}

impl Grid {
    /// Cells per row.
    pub closed spec fn width_spec(self) -> int {
        self.width as int
    }

    /// Number of rows.
    pub closed spec fn height_spec(self) -> int {
        self.height as int
    }

    /// Row-major cell contents.
    pub closed spec fn cells_spec(self) -> Seq<i32> {
        self.cells@
    }

    /// A well-formed grid: positive bounded sides, one cell per coordinate.
    pub open spec fn wf(self) -> bool {
        &&& 1 <= self.width_spec() <= GRID_DIM_MAX
        &&& 1 <= self.height_spec() <= GRID_DIM_MAX
        &&& self.cells_spec().len() == self.width_spec() * self.height_spec()
    }

    /// Whether integer cell coordinates land on a wall. Out-of-bounds
    /// coordinates are never walls.
    pub open spec fn wall_at(self, x: int, y: int) -> bool {
        &&& 0 <= x < self.width_spec()
        &&& 0 <= y < self.height_spec()
        &&& self.cells_spec()[y * self.width_spec() + x] != 0
    }

    /// Whether the grid's whole outer border is walls, the backstop that
    /// keeps every ray's march finite.
    pub open spec fn bordered(self) -> bool {
        forall|x: int, y: int|
            0 <= x < self.width_spec() && 0 <= y < self.height_spec() && (x == 0 || x
                == self.width_spec() - 1 || y == 0 || y == self.height_spec() - 1)
                ==> #[trigger] self.wall_at(x, y)
    }

    /// Builds a grid from its dimensions and row-major cells; rejects
    /// mismatched sizes.
    pub fn new(width: usize, height: usize, cells: Vec<i32>) -> (r: Option<Grid>)
        ensures
            r is Some <==> {
                &&& 1 <= width <= GRID_DIM_MAX
                &&& 1 <= height <= GRID_DIM_MAX
                &&& cells@.len() == width * height
            },
            r is Some ==> {
                &&& r->Some_0.wf()
                &&& r->Some_0.width_spec() == width
                &&& r->Some_0.height_spec() == height
                &&& r->Some_0.cells_spec() == cells@
            },
    {
        if width >= 1 && width <= GRID_DIM_MAX && height >= 1 && height <= GRID_DIM_MAX
            && cells.len() / width == height && cells.len() % width == 0
        {
            proof {
                vstd::arithmetic::div_mod::lemma_fundamental_div_mod(
                    cells@.len() as int,
                    width as int,
                );
            }
            Some(Grid { width, height, cells })
        } else {
            proof {
                if cells@.len() == width * height && 1 <= width && 1 <= height {
                    vstd::arithmetic::div_mod::lemma_div_multiples_vanish(
                        height as int,
                        width as int,
                    );
                    vstd::arithmetic::div_mod::lemma_mod_multiples_basic(
                        height as int,
                        width as int,
                    );
                }
            }
            None
        }
    }

    /// Width in cells.
    pub fn width(&self) -> (r: usize)
        ensures
            r == self.width_spec(),
    {
        self.width
    }

    /// Height in cells.
    pub fn height(&self) -> (r: usize)
        ensures
            r == self.height_spec(),
    {
        self.height
    }

    /// Coordinates outside the grid are never walls, whatever the cell
    /// data holds: every marcher may probe freely past the border.
    pub proof fn lemma_no_wall_outside(self, x: int, y: int)
        requires
            x < 0 || x >= self.width_spec() || y < 0 || y >= self.height_spec(),
        ensures
            !self.wall_at(x, y),
    {
    }

    /// Reads one cell's raw value.
    pub fn cell_at(&self, x: usize, y: usize) -> (r: i32)
        requires
            self.wf(),
            x < self.width_spec(),
            y < self.height_spec(),
        ensures
            r == self.cells_spec()[y * self.width_spec() + x],
    {
        proof {
            assert(y * self.width_spec() + x < self.width_spec() * self.height_spec()
                && self.width_spec() * self.height_spec() <= 4096 * 4096)
                by (nonlinear_arith)
                requires
                    0 <= x < self.width_spec() <= 4096,
                    0 <= y < self.height_spec() <= 4096,
            ;
        }
        let idx: usize = y * self.width + x;
        self.cells[idx]
    }

    /// Bounds-checked occupancy query: true exactly when `(x, y)` is inside
    /// the grid and that cell is a wall. Coordinates outside
    /// `[0, width) x [0, height)` always answer false.
    pub fn check_collision(&self, x: i64, y: i64) -> (r: bool)
        requires
            self.wf(),
        ensures
            r == self.wall_at(x as int, y as int),
    {
        if x >= 0 && x < self.width as i64 && y >= 0 && y < self.height as i64 {
            proof {
                assert(y * self.width_spec() + x < self.width_spec() * self.height_spec()
                    && self.width_spec() * self.height_spec() <= 4096 * 4096)
                    by (nonlinear_arith)
                    requires
                        0 <= x < self.width_spec() <= 4096,
                        0 <= y < self.height_spec() <= 4096,
                ;
            }
            let idx: usize = (y as usize) * self.width + (x as usize);
            self.cells[idx] != 0
        } else {
            false
        }
    }
}

} // verus!
