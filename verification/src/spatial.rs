//! The spatial prior grid: coarse long-term expectations about the world.
//!
//! A fixed 20 x 10 array of cells covers the world rectangle; each cell
//! holds a running mean of the observations made inside it and a precision
//! that grows with repeated visits. The cell lookup is total: positions
//! outside the rectangle are clamped to the border cells.

use vstd::prelude::*;
use crate::fixed::{Fix, fadd, fsub, fmul, fclamp, fmin};
use crate::params::{
    GRID_HEIGHT, GRID_WIDTH, MAX_PRECISION, MIN_PRECISION, PRIOR_LEARNING_RATE, PRIOR_VISIT_GAIN,
};

verus! {

/// Ghost model of a [`CellPrior`].
pub struct CellPriorV {
    pub mean: int,
    pub precision: int,
}

/// Ghost model of a [`SpatialGrid`].
#[verifier::ext_equal]
pub struct SpatialGridV {
    pub cells: Seq<CellPriorV>,
    pub width: int,
    pub height: int,
}

/// One grid cell: a learned mean and a confidence (precision).
#[derive(Clone, Copy, PartialEq, Eq, Structural, Debug)]
pub struct CellPrior {
    /// Running mean of the observations made in this cell.
    pub mean: Fix,
    /// Precision (confidence), grown by repeated visits.
    pub precision: Fix,
}

impl View for CellPrior {
    type V = CellPriorV;

    open spec fn view(&self) -> CellPriorV {
        CellPriorV { mean: self.mean@, precision: self.precision@ }
    }
}

/// The state of a cell that has never been visited.
pub open spec fn cell_default_s() -> CellPriorV {
    CellPriorV { mean: 0, precision: MIN_PRECISION as int }
}

impl CellPrior {
    /// A cell that has never been visited.
    pub fn unvisited() -> (r: CellPrior)
        ensures
            r@ == cell_default_s(),
    {
        CellPrior { mean: Fix::zero(), precision: Fix::from_micros(MIN_PRECISION) }
    }
}

impl Default for CellPrior {
    /// A cell that has never been visited.
    fn default() -> (r: CellPrior)
        ensures
            r@ == cell_default_s(),
    {
        CellPrior::unvisited()
    }
}

/// Grid column for a world x coordinate: total and clamped to the border.
pub open spec fn cell_col_s(width: int, x: int) -> int {
    if x <= 0 || width <= 0 {
        0
    } else {
        fmin((x * GRID_WIDTH as int) / width, GRID_WIDTH as int - 1)
    }
}

/// Grid row for a world y coordinate: total and clamped to the border.
pub open spec fn cell_row_s(height: int, y: int) -> int {
    if y <= 0 || height <= 0 {
        0
    } else {
        fmin((y * GRID_HEIGHT as int) / height, GRID_HEIGHT as int - 1)
    }
}

/// Flat cell index for a world position.
pub open spec fn cell_idx_s(g: SpatialGridV, x: int, y: int) -> int {
    cell_row_s(g.height, y) * GRID_WIDTH as int + cell_col_s(g.width, x)
}

/// The cell under a world position.
pub open spec fn grid_cell_s(g: SpatialGridV, x: int, y: int) -> CellPriorV {
    g.cells[cell_idx_s(g, x, y)]
}

/// The learned update of the visited cell: the mean moves toward the
/// observation, the precision grows, both clamped.
pub open spec fn cell_update_s(c: CellPriorV, obs: int) -> CellPriorV {
    CellPriorV {
        mean: fadd(c.mean, fmul(PRIOR_LEARNING_RATE as int, fsub(obs, c.mean))),
        precision: fclamp(
            fadd(c.precision, PRIOR_VISIT_GAIN as int),
            MIN_PRECISION as int,
            MAX_PRECISION as int,
        ),
    }
}

/// The whole grid after one observation at a world position.
pub open spec fn grid_update_s(g: SpatialGridV, x: int, y: int, obs: int) -> SpatialGridV {
    SpatialGridV {
        cells: g.cells.update(cell_idx_s(g, x, y), cell_update_s(grid_cell_s(g, x, y), obs)),
        width: g.width,
        height: g.height,
    }
}

/// A well-formed grid: full cell array over a positive world rectangle.
pub open spec fn grid_wf(g: SpatialGridV) -> bool {
    &&& g.cells.len() == (GRID_WIDTH * GRID_HEIGHT) as nat
    &&& g.width > 0
    &&& g.height > 0
}

/// The fresh grid: every cell unvisited.
pub open spec fn grid_new_s(width: int, height: int) -> SpatialGridV {
    SpatialGridV {
        cells: Seq::new((GRID_WIDTH * GRID_HEIGHT) as nat, |i: int| cell_default_s()),
        width: width,
        height: height,
    }
}

/// The spatial prior grid over the world rectangle.
#[derive(Clone, Debug)]
pub struct SpatialGrid {
    cells: Vec<CellPrior>,
    width: Fix,
    height: Fix,
}

impl View for SpatialGrid {
    type V = SpatialGridV;

    closed spec fn view(&self) -> SpatialGridV {
        SpatialGridV {
            cells: self.cells@.map_values(|c: CellPrior| c@),
            width: self.width@,
            height: self.height@,
        }
    }
}

impl SpatialGrid {
    /// A fresh grid covering a world rectangle of the given extent.
    pub fn new(width: Fix, height: Fix) -> (r: SpatialGrid)
        requires
            width@ > 0,
            height@ > 0,
        ensures
            r@ == grid_new_s(width@, height@),
            grid_wf(r@),
    {
        let mut cells: Vec<CellPrior> = Vec::new();
        let mut i: usize = 0;
        while i < GRID_WIDTH * GRID_HEIGHT
            invariant
                i <= GRID_WIDTH * GRID_HEIGHT,
                cells@.len() == i as nat,
                forall|j: int| 0 <= j < i ==> cells@[j]@ == cell_default_s(),
            decreases GRID_WIDTH * GRID_HEIGHT - i,
        {
            cells.push(CellPrior::unvisited());
            i = i + 1;
        }
        let r = SpatialGrid { cells, width, height };
        proof {
            assert(r@.cells =~= grid_new_s(width@, height@).cells);
            assert(r@ =~= grid_new_s(width@, height@));
        }
        r
    }

    /// The grid dimensions, in cells: (width, height).
    pub fn dimensions(&self) -> (r: (usize, usize))
        ensures
            r.0 == GRID_WIDTH,
            r.1 == GRID_HEIGHT,
    {
        (GRID_WIDTH, GRID_HEIGHT)
    }

    /// The flat cell index for a world position: total and clamped.
    fn cell_index(&self, x: Fix, y: Fix) -> (r: usize)
        requires
            grid_wf(self@),
        ensures
            r as int == cell_idx_s(self@, x@, y@),
            r < GRID_WIDTH * GRID_HEIGHT,
    {
        let col = clamped_coord(x, self.width, GRID_WIDTH);
        let row = clamped_coord(y, self.height, GRID_HEIGHT);
        row * GRID_WIDTH + col
    }

    /// The cell under a world position (never out of range).
    pub fn get_cell(&self, x: Fix, y: Fix) -> (r: &CellPrior)
        requires
            grid_wf(self@),
        ensures
            r@ == grid_cell_s(self@, x@, y@),
    {
        let idx = self.cell_index(x, y);
        &self.cells[idx]
    }

    /// Learn from one observation at a world position: the visited cell's
    /// mean moves toward the observation and its confidence grows.
    pub fn update(&mut self, x: Fix, y: Fix, obs: Fix)
        requires
            grid_wf(old(self)@),
        ensures
            final(self)@ == grid_update_s(old(self)@, x@, y@, obs@),
            grid_wf(final(self)@),
    {
        let idx = self.cell_index(x, y);
        let c = self.cells[idx];
        let mean = c.mean.add(Fix::from_micros(PRIOR_LEARNING_RATE).mul(obs.sub(c.mean)));
        let precision = c.precision.add(Fix::from_micros(PRIOR_VISIT_GAIN)).clamp(
            Fix::from_micros(MIN_PRECISION),
            Fix::from_micros(MAX_PRECISION),
        );
        let updated = CellPrior { mean, precision };
        self.cells.set(idx, updated);
        proof {
            assert(self@.cells =~= grid_update_s(old(self)@, x@, y@, obs@).cells);
            assert(self@ =~= grid_update_s(old(self)@, x@, y@, obs@));
        }
    }

    /// All cells, flattened row by row.
    pub fn flatten(&self) -> (r: Vec<CellPrior>)
        ensures
            r@.map_values(|c: CellPrior| c@) == self@.cells,
    {
        let mut out: Vec<CellPrior> = Vec::new();
        let mut i: usize = 0;
        while i < self.cells.len()
            invariant
                i <= self.cells@.len(),
                out@.len() == i as nat,
                forall|j: int| 0 <= j < i ==> out@[j] == self.cells@[j],
            decreases self.cells@.len() - i,
        {
            out.push(self.cells[i]);
            i = i + 1;
        }
        proof {
            assert(out@.map_values(|c: CellPrior| c@) =~= self@.cells);
        }
        out
    }
}

/// Clamped coordinate-to-cell mapping along one axis.
fn clamped_coord(pos: Fix, extent: Fix, cells: usize) -> (r: usize)
    requires
        extent@ > 0,
        cells == GRID_WIDTH || cells == GRID_HEIGHT,
    ensures
        cells == GRID_WIDTH ==> r as int == cell_col_s(extent@, pos@),
        cells == GRID_HEIGHT ==> r as int == cell_row_s(extent@, pos@),
        r < cells,
{
    let p = pos.micros();
    let e = extent.micros();
    if p <= 0 {
        0
    } else {
        let q: u128 = ((p as u128) * (cells as u128)) / (e as u128);
        let m: u128 = (cells - 1) as u128;
        proof {
            assert(q as int == (pos@ * cells as int) / extent@);
        }
        if q > m {
            cells - 1
        } else {
            q as usize
        }
    }
}

} // verus!
