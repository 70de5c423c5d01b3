//! The mathematical model of the simulation: the grid as a sequence of
//! particles in row-major order, the active set as a set of cell indices, and
//! the brush radius. Every contract of the engine is stated over this model.

use crate::particle::Particle;
use vstd::prelude::*;

verus! {

/// Number of columns of the grid.
pub const WIDTH: u32 = 427;

/// Number of rows of the grid.
pub const HEIGHT: u32 = 240;

/// Number of display pixels along one side of a cell.
pub const SCALE: u32 = 3;

/// Brush radius of a freshly created world.
pub const DEFAULT_RADIUS: u32 = 10;

/// Number of cells of the grid, `WIDTH * HEIGHT`.
pub const CELLS: usize = 102_480;

/// The simulation state as a mathematical value.
pub struct State {
    /// The particle of every cell; cell `(x, y)` is at index `y * WIDTH + x`.
    pub cells: Seq<Particle>,
    /// Indices of the cells that gravity considers on the next tick.
    pub active: Set<int>,
    /// Half-width of the brush.
    pub radius: nat,
}

/// `(x, y)` names a cell of the grid.
pub open spec fn in_grid(x: int, y: int) -> bool {
    0 <= x < WIDTH && 0 <= y < HEIGHT
}

/// Index of cell `(x, y)` in row-major order.
pub open spec fn cell(x: int, y: int) -> int {
    y * WIDTH + x
}

/// Column of the cell with index `i`.
pub open spec fn column(i: int) -> int {
    i % (WIDTH as int)
}

/// Row of the cell with index `i`.
pub open spec fn row(i: int) -> int {
    i / (WIDTH as int)
}

impl State {
    /// The grid has exactly `CELLS` cells, the active set names only cells of
    /// the grid, and the radius fits in 32 bits.
    pub open spec fn wf(self) -> bool {
        &&& self.cells.len() == CELLS
        &&& forall|i: int| self.active.contains(i) ==> 0 <= i < CELLS
        &&& self.radius <= u32::MAX
    }

    /// The particle at `(x, y)`.
    pub open spec fn at(self, x: int, y: int) -> Particle {
        self.cells[cell(x, y)]
    }

    /// Whether `(x, y)` is in the active set.
    pub open spec fn is_active(self, x: int, y: int) -> bool {
        self.active.contains(cell(x, y))
    }

    /// Every grain of sand is in the active set.
    pub open spec fn tracks_sand(self) -> bool {
        forall|i: int| 0 <= i < self.cells.len() && self.cells[i] == Particle::Sand
            ==> self.active.contains(i)
    }

    /// Every cell of the active set holds a grain of sand.
    pub open spec fn active_is_sand(self) -> bool {
        forall|i: int| self.active.contains(i) ==> 0 <= i < self.cells.len() && self.cells[i]
            == Particle::Sand
    }

    /// The active set is exactly the set of cells that hold sand.
    pub open spec fn consistent(self) -> bool {
        self.tracks_sand() && self.active_is_sand()
    }
}

/// The state in which every world starts: an empty grid, nothing active, the
/// default radius.
pub open spec fn initial() -> State {
    State {
        cells: Seq::new(CELLS as nat, |i: int| Particle::Empty),
        active: Set::empty(),
        radius: DEFAULT_RADIUS as nat,
    }
}

} // verus!
