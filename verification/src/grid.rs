//! The double-buffered state grid engine.
//!
//! Two grid-sized buffers exist at all times: `current` holds this
//! generation's authoritative state, `snapshot` an immutable copy of the
//! previous generation used only for neighbor lookups. A tick first copies
//! `current` into `snapshot` in bulk, then rewrites every cell of `current`
//! from `snapshot` alone, so no transition ever reads a mix of two
//! generations however the per-cell work is scheduled.

use vstd::prelude::*;
use vstd::arithmetic::div_mod::lemma_fundamental_div_mod;
use crate::cell::{Cell, next_state, next_state_spec};
use crate::rng::random_in;

verus! {

/// Reference grid width, in cells.
pub const WIDTH: u32 = 1920;

/// Reference grid height, in cells.
pub const HEIGHT: u32 = 1080;

/// Width of one parallel dispatch tile, in cells.
pub const GROUP_WIDTH: u32 = 16;

/// Height of one parallel dispatch tile, in cells.
pub const GROUP_HEIGHT: u32 = 9;

/// A configuration the engine must reject at construction time.
#[derive(Clone, Copy, PartialEq, Eq, Structural, Debug)]
pub enum GridError {
    /// The grid dimensions do not tile evenly into dispatch groups.
    IndivisibleDimensions,
}

/// The cell of a row-major grid of width `w` at column `x`, row `y`.
pub open spec fn cell_at(cells: Seq<Cell>, w: int, x: int, y: int) -> Cell {
    cells[y * w + x]
}

/// The neighbor slot of `(x, y)` at absolute position `(nx, ny)`: absent
/// when the position falls off the grid, so edges do not wrap.
pub open spec fn neighbor_slot(cells: Seq<Cell>, w: int, h: int, nx: int, ny: int) -> Option<
    Cell,
> {
    if 0 <= nx < w && 0 <= ny < h {
        Some(cell_at(cells, w, nx, ny))
    } else {
        None
    }
}

/// The eight neighbor slots of `(x, y)`, row by row, in a fixed order.
pub open spec fn neighborhood(cells: Seq<Cell>, w: int, h: int, x: int, y: int) -> Seq<
    Option<Cell>,
> {
    seq![
        neighbor_slot(cells, w, h, x - 1, y - 1),
        neighbor_slot(cells, w, h, x, y - 1),
        neighbor_slot(cells, w, h, x + 1, y - 1),
        neighbor_slot(cells, w, h, x - 1, y),
        neighbor_slot(cells, w, h, x + 1, y),
        neighbor_slot(cells, w, h, x - 1, y + 1),
        neighbor_slot(cells, w, h, x, y + 1),
        neighbor_slot(cells, w, h, x + 1, y + 1),
    ]
}

/// The next state of the cell at `(x, y)`, read entirely from one
/// generation `cells`.
pub open spec fn step_cell(cells: Seq<Cell>, w: int, h: int, x: int, y: int) -> Cell {
    next_state_spec(cell_at(cells, w, x, y), neighborhood(cells, w, h, x, y))
}

/// One full generation: every cell stepped against the same source
/// generation.
pub open spec fn step_grid(cells: Seq<Cell>, w: int, h: int) -> Seq<Cell> {
    Seq::new(cells.len(), |i: int| step_cell(cells, w, h, i % w, i / w))
}

/// The double-buffered grid: this generation's state and the snapshot of
/// the previous one that neighbor lookups read.
pub struct Grid {
    /// Grid width in cells.
    pub width: usize,
    /// Grid height in cells.
    pub height: usize,
    /// This generation's authoritative state, row-major.
    pub current: Vec<Cell>,
    /// The previous generation, the only read source during a step.
    pub snapshot: Vec<Cell>,
}

impl Grid {
    /// Both buffers are grid-sized and the dimensions are positive.
    pub open spec fn wf(self) -> bool {
        &&& 0 < self.width
        &&& 0 < self.height
        &&& self.current@.len() == self.width * self.height
        &&& self.snapshot@.len() == self.width * self.height
    }

    /// Builds a grid holding the given cells, with the snapshot primed to
    /// the same generation.
    pub fn from_cells(width: usize, height: usize, cells: Vec<Cell>) -> (g: Grid)
        requires
            0 < width,
            0 < height,
            cells@.len() == width * height,
        ensures
            g.wf(),
            g.width == width,
            g.height == height,
            g.current@ == cells@,
            g.snapshot@ == cells@,
    {
        let snapshot = copy_cells(&cells);
        Grid { width, height, current: cells, snapshot }
    }

    /// Seeds every cell to a uniformly random state among the three values.
    /// Used at startup and on an explicit reset request.
    pub fn initialize(width: usize, height: usize) -> (g: Grid)
        requires
            0 < width,
            0 < height,
            width * height <= usize::MAX,
        ensures
            g.wf(),
            g.width == width,
            g.height == height,
            g.snapshot@ == g.current@,
    {
        let n = width * height;
        let cells = random_cells(n);
        Grid::from_cells(width, height, cells)
    }

    /// Reseeds the current generation with fresh uniform-random cells. The
    /// snapshot is bypassed: the next tick's bulk copy propagates the new
    /// state.
    pub fn reset(&mut self)
        requires
            old(self).wf(),
        ensures
            final(self).wf(),
            final(self).width == old(self).width,
            final(self).height == old(self).height,
            final(self).snapshot == old(self).snapshot,
    {
        let n = self.current.len();
        self.current = random_cells(n);
    }

    /// Reads the cell at column `x`, row `y` of the current generation.
    pub fn cell(&self, x: usize, y: usize) -> (c: Cell)
        requires
            self.wf(),
            x < self.width,
            y < self.height,
        ensures
            c == cell_at(self.current@, self.width as int, x as int, y as int),
    {
        proof {
            lemma_row_major_index_in_range(
                self.width as int,
                self.height as int,
                x as int,
                y as int,
            );
            assert(self.current.len() == self.current@.len());
        }
        self.current[y * self.width + x]
    }

    /// Reads the cell at column `x`, row `y` of the snapshot generation.
    fn snapshot_cell(&self, x: usize, y: usize) -> (c: Cell)
        requires
            self.wf(),
            x < self.width,
            y < self.height,
        ensures
            c == cell_at(self.snapshot@, self.width as int, x as int, y as int),
    {
        proof {
            lemma_row_major_index_in_range(
                self.width as int,
                self.height as int,
                x as int,
                y as int,
            );
            assert(self.snapshot.len() == self.snapshot@.len());
        }
        self.snapshot[y * self.width + x]
    }

    /// Gathers the eight neighbor slots of `(x, y)` from the snapshot, with
    /// absent slots at the grid edges.
    #[verifier::rlimit(50)]
    fn neighbors_from_snapshot(&self, x: usize, y: usize) -> (nbrs: Vec<Option<Cell>>)
        requires
            self.wf(),
            x < self.width,
            y < self.height,
        ensures
            nbrs@ == neighborhood(
                self.snapshot@,
                self.width as int,
                self.height as int,
                x as int,
                y as int,
            ),
    {
        let w = self.width;
        let h = self.height;
        let mut nbrs: Vec<Option<Cell>> = Vec::new();
        nbrs.push(
            if x > 0 && y > 0 {
                Some(self.snapshot_cell(x - 1, y - 1))
            } else {
                None
            },
        );
        nbrs.push(
            if y > 0 {
                Some(self.snapshot_cell(x, y - 1))
            } else {
                None
            },
        );
        nbrs.push(
            if x + 1 < w && y > 0 {
                Some(self.snapshot_cell(x + 1, y - 1))
            } else {
                None
            },
        );
        nbrs.push(
            if x > 0 {
                Some(self.snapshot_cell(x - 1, y))
            } else {
                None
            },
        );
        nbrs.push(
            if x + 1 < w {
                Some(self.snapshot_cell(x + 1, y))
            } else {
                None
            },
        );
        nbrs.push(
            if x > 0 && y + 1 < h {
                Some(self.snapshot_cell(x - 1, y + 1))
            } else {
                None
            },
        );
        nbrs.push(
            if y + 1 < h {
                Some(self.snapshot_cell(x, y + 1))
            } else {
                None
            },
        );
        nbrs.push(
            if x + 1 < w && y + 1 < h {
                Some(self.snapshot_cell(x + 1, y + 1))
            } else {
                None
            },
        );
        proof {
            assert(nbrs@ =~= neighborhood(
                self.snapshot@,
                self.width as int,
                self.height as int,
                x as int,
                y as int,
            ));
        }
        nbrs
    }

    /// Advances the automaton one generation. The whole current buffer is
    /// first copied into the snapshot, capturing generation N before any
    /// cell of generation N+1 is written; then every cell of `current` is
    /// rewritten from the snapshot alone, so each transition reads one
    /// consistent, unmodified neighborhood.
    pub fn advance_generation(&mut self)
        requires
            old(self).wf(),
        ensures
            final(self).wf(),
            final(self).width == old(self).width,
            final(self).height == old(self).height,
            final(self).snapshot@ == old(self).current@,
            final(self).current@ == step_grid(
                old(self).current@,
                old(self).width as int,
                old(self).height as int,
            ),
    {
        self.snapshot = copy_cells(&self.current);
        let w = self.width;
        let h = self.height;
        let n = self.current.len();
        let wi = Ghost(w as int);
        let hi = Ghost(h as int);
        let mut i: usize = 0;
        while i < n
            invariant
                self.wf(),
                self.width == w,
                self.height == h,
                wi@ == w as int,
                hi@ == h as int,
                n == self.current@.len(),
                self.snapshot@ == old(self).current@,
                0 <= i <= n,
                forall|j: int|
                    0 <= j < i ==> self.current@[j] == step_cell(
                        self.snapshot@,
                        wi@,
                        hi@,
                        j % wi@,
                        j / wi@,
                    ),
            decreases n - i,
        {
            let x = i % w;
            let y = i / w;
            proof {
                lemma_fundamental_div_mod(i as int, w as int);
                assert(y < h) by (nonlinear_arith)
                    requires
                        i < w * h,
                        i as int == (w as int) * (y as int) + (x as int),
                        0 <= x,
                        0 < w,
                        0 <= y,
                ;
            }
            let nbrs = self.neighbors_from_snapshot(x, y);
            let own = self.snapshot_cell(x, y);
            let next = next_state(own, &nbrs);
            self.current.set(i, next);
            i = i + 1;
        }
        proof {
            assert(self.current@ =~= step_grid(self.snapshot@, w as int, h as int));
        }
    }

    /// The current generation in the device buffer layout: one word per
    /// cell, row-major.
    pub fn encoded(&self) -> (v: Vec<u32>)
        ensures
            v@.len() == self.current@.len(),
            forall|j: int|
                0 <= j < v@.len() ==> v@[j] == #[trigger] self.current@[j].encode_spec(),
    {
        let mut v: Vec<u32> = Vec::new();
        let mut i: usize = 0;
        while i < self.current.len()
            invariant
                0 <= i <= self.current@.len(),
                v@.len() == i,
                forall|j: int|
                    0 <= j < i ==> v@[j] == #[trigger] self.current@[j].encode_spec(),
            decreases self.current@.len() - i,
        {
            v.push(self.current[i].encode());
            i = i + 1;
        }
        v
    }
}

/// A row-major index stays inside a `w` by `h` grid.
proof fn lemma_row_major_index_in_range(w: int, h: int, x: int, y: int)
    requires
        0 <= x < w,
        0 <= y < h,
    ensures
        0 <= y * w + x < w * h,
        y * w <= w * h,
{
    assert(0 <= y * w + x < w * h && y * w <= w * h) by (nonlinear_arith)
        requires
            0 <= x < w,
            0 <= y < h,
    ;
}

/// Generation isolation: the transition of the cell at `(x, y)` reads only
/// the previous generation's values in its own one-cell neighborhood. Two
/// generations that agree there step that cell identically, so no transition
/// can observe a partially rewritten grid.
pub proof fn lemma_generation_isolation(
    a: Seq<Cell>,
    b: Seq<Cell>,
    w: int,
    h: int,
    x: int,
    y: int,
)
    requires
        a.len() == w * h,
        b.len() == w * h,
        0 <= x < w,
        0 <= y < h,
        forall|nx: int, ny: int|
            x - 1 <= nx <= x + 1 && y - 1 <= ny <= y + 1 && 0 <= nx < w && 0 <= ny < h
                ==> #[trigger] cell_at(a, w, nx, ny) == cell_at(b, w, nx, ny),
    ensures
        step_cell(a, w, h, x, y) == step_cell(b, w, h, x, y),
{
    assert(cell_at(a, w, x, y) == cell_at(b, w, x, y));
    assert(neighborhood(a, w, h, x, y) =~= neighborhood(b, w, h, x, y));
}

/// Copies a cell buffer in bulk.
fn copy_cells(cells: &Vec<Cell>) -> (out: Vec<Cell>)
    ensures
        out@ == cells@,
{
    let mut out: Vec<Cell> = Vec::new();
    let mut i: usize = 0;
    while i < cells.len()
        invariant
            0 <= i <= cells@.len(),
            out@.len() == i,
            forall|j: int| 0 <= j < i ==> out@[j] == cells@[j],
        decreases cells@.len() - i,
    {
        out.push(cells[i]);
        i = i + 1;
    }
    proof {
        assert(out@ =~= cells@);
    }
    out
}

/// Builds `n` uniformly random cells.
fn random_cells(n: usize) -> (v: Vec<Cell>)
    ensures
        v@.len() == n,
{
    let mut v: Vec<Cell> = Vec::new();
    let mut i: usize = 0;
    while i < n
        invariant
            0 <= i <= n,
            v@.len() == i,
        decreases n - i,
    {
        v.push(Cell::decode(random_in(0, 2)));
        i = i + 1;
    }
    v
}

/// Seeds a device-layout state buffer of `len` words, each a uniformly
/// random cell encoding.
pub fn create_initial_state(len: usize) -> (v: Vec<u32>)
    ensures
        v@.len() == len,
        forall|j: int| 0 <= j < len ==> 0 <= #[trigger] v@[j] <= 2,
{
    let mut v: Vec<u32> = Vec::new();
    let mut i: usize = 0;
    while i < len
        invariant
            0 <= i <= len,
            v@.len() == i,
            forall|j: int| 0 <= j < i ==> 0 <= #[trigger] v@[j] <= 2,
        decreases len - i,
    {
        v.push(random_in(0, 2));
        i = i + 1;
    }
    v
}

/// Computes the dispatch partition: how many parallel groups cover the grid
/// in each axis. Fails fast when the dimensions do not tile evenly, so the
/// configuration fault is caught at construction time, never at runtime.
pub fn dispatch_counts(width: u32, height: u32) -> (r: Result<(u32, u32), GridError>)
    ensures
        r is Ok <==> (width % GROUP_WIDTH == 0 && height % GROUP_HEIGHT == 0),
        r matches Ok(counts) ==> counts.0 * GROUP_WIDTH == width && counts.1 * GROUP_HEIGHT
            == height,
        r is Err ==> r == Result::<(u32, u32), GridError>::Err(GridError::IndivisibleDimensions),
{
    if width % GROUP_WIDTH == 0 && height % GROUP_HEIGHT == 0 {
        let gx = width / GROUP_WIDTH;
        let gy = height / GROUP_HEIGHT;
        proof {
            lemma_fundamental_div_mod(width as int, GROUP_WIDTH as int);
            lemma_fundamental_div_mod(height as int, GROUP_HEIGHT as int);
        }
        Ok((gx, gy))
    } else {
        Err(GridError::IndivisibleDimensions)
    }
}

} // verus!
