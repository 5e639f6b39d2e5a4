use vstd::prelude::*;

use crate::config::Config;

verus! {

/// Which diagonal of a unit cell is drawn.
#[derive(Clone, Copy, Debug, PartialEq, Eq, Structural)]
pub enum Orientation {
    /// The `/`-style diagonal: from the cell's lower-left corner to its
    /// upper-right corner.
    Forward,
    /// The `\`-style diagonal: from the cell's upper-left corner to its
    /// lower-right corner.
    Backward,
}

/// One grid position: its integer coordinates, its current diagonal
/// orientation, and the transient flag saying whether the last tick's
/// flip event hit this cell.
#[derive(Clone, Copy, Debug, PartialEq, Eq, Structural)]
pub struct Cell {
    /// Column of this cell; `0 <= col < cols`.
    pub col: u32,
    /// Row of this cell; `0 <= row < rows`.
    pub row: u32,
    /// The diagonal currently drawn in this cell.
    pub orientation: Orientation,
    /// Whether the most recent tick's independent flip event hit this
    /// cell.  Recomputed on every update; `false` at construction.
    pub flipped_this_tick: bool,
}

/// Relies on `rand::random_ratio`: returns `true` with probability
/// `num / den`; always `false` when `num == 0` and always `true` when
/// `num == den`; panics when `den == 0` or `num > den`.
#[verifier::external_body]
fn coin(num: u32, den: u32) -> (r: bool)
    requires
        0 < den,
        num <= den,
    ensures
        num == 0 ==> !r,
        num == den ==> r,
{
    rand::random_ratio(num, den)
}

/// Relies on `rand::random_range`: a uniform draw from `0 .. n`; panics
/// on an empty range.
#[verifier::external_body]
fn uniform_below(n: u32) -> (r: u32)
    requires
        0 < n,
    ensures
        r < n,
{
    rand::random_range(0..n)
}

/// The orientation a drawn index denotes: index 0 is `Forward`, any other
/// index is `Backward`.  A draw from `0 .. 2` thus reaches each orientation
/// through exactly one index.
pub fn orientation_of_index(index: u32) -> (r: Orientation)
    ensures
        index == 0 ==> r == Orientation::Forward,
        index != 0 ==> r == Orientation::Backward,
{
    if index == 0 {
        Orientation::Forward
    } else {
        Orientation::Backward
    }
}

/// An independent uniform draw over the two orientations: a uniform index
/// from `0 .. 2`, mapped through `orientation_of_index`.
pub fn random_orientation() -> (r: Orientation)
    ensures
        r == Orientation::Forward || r == Orientation::Backward,
{
    let index: u32 = uniform_below(2);
    orientation_of_index(index)
}

/// The grid: one cell per `(col, row)` pair, in a fixed row-major order,
/// created once and mutated in place on every tick.
pub struct Grid {
    /// The immutable configuration the grid was built with.
    pub config: Config,
    /// The cells, in row-major order: the cell at `(col, row)` sits at
    /// index `row * cols + col`.
    pub cells: Vec<Cell>,
}

impl Grid {
    /// Well-formedness: the configuration is well formed, there is exactly
    /// one cell per coordinate pair, and the cell at index `i` carries the
    /// row-major coordinates `(i % cols, i / cols)`.
    pub open spec fn wf(self) -> bool {
        &&& self.config.wf()
        &&& self.cells@.len() == self.config.rows * self.config.cols
        &&& forall|i: int|
            0 <= i < self.cells@.len() ==> (#[trigger] self.cells@[i]).col
                == i % (self.config.cols as int)
        &&& forall|i: int|
            0 <= i < self.cells@.len() ==> (#[trigger] self.cells@[i]).row
                == i / (self.config.cols as int)
    }

    /// Number of cells; equals `rows * cols` for a well-formed grid.
    pub fn cell_count(&self) -> (n: usize)
        ensures
            n == self.cells@.len(),
    {
        self.cells.len()
    }

    /// Allocates one cell per coordinate pair in row-major order, each
    /// cell's orientation drawn independently and uniformly at random,
    /// every transient flip flag clear.
    pub fn new(config: Config) -> (g: Grid)
        requires
            config.wf(),
        ensures
            g.wf(),
            g.config == config,
            g.cells@.len() == config.rows * config.cols,
            forall|i: int| 0 <= i < g.cells@.len() ==> !(#[trigger] g.cells@[i]).flipped_this_tick,
            forall|i: int|
                0 <= i < g.cells@.len() ==> ((#[trigger] g.cells@[i]).orientation
                    == Orientation::Forward || g.cells@[i].orientation == Orientation::Backward),
    {
        proof {
            assert(config.rows * config.cols <= 0x1_0000_0000) by (nonlinear_arith)
                requires
                    config.rows <= crate::config::MAX_DIM,
                    config.cols <= crate::config::MAX_DIM,
            ;
        }
        let count: u64 = (config.rows as u64) * (config.cols as u64);
        let mut cells: Vec<Cell> = Vec::new();
        let mut i: u64 = 0;
        while i < count
            invariant
                i <= count,
                count == config.rows * config.cols,
                config.wf(),
                cells@.len() == i,
                forall|j: int|
                    0 <= j < i ==> (#[trigger] cells@[j]).col == j % (config.cols as int),
                forall|j: int|
                    0 <= j < i ==> (#[trigger] cells@[j]).row == j / (config.cols as int),
                forall|j: int| 0 <= j < i ==> !(#[trigger] cells@[j]).flipped_this_tick,
            decreases count - i,
        {
            proof {
                assert((i as int) / (config.cols as int) < config.rows) by (nonlinear_arith)
                    requires
                        0 < config.cols,
                        (i as int) < config.rows * config.cols,
                ;
            }
            let col: u32 = (i % (config.cols as u64)) as u32;
            let row: u32 = (i / (config.cols as u64)) as u32;
            let cell = Cell {
                col,
                row,
                orientation: random_orientation(),
                flipped_this_tick: false,
            };
            cells.push(cell);
            i = i + 1;
        }
        Grid { config, cells }
    }

    /// Builds a grid whose cells all carry the given orientation, every
    /// transient flip flag clear: a deterministic seed for small scenarios.
    pub fn with_orientation(config: Config, orientation: Orientation) -> (g: Grid)
        requires
            config.wf(),
        ensures
            g.wf(),
            g.config == config,
            g.cells@.len() == config.rows * config.cols,
            forall|i: int|
                0 <= i < g.cells@.len() ==> (#[trigger] g.cells@[i]).orientation == orientation,
            forall|i: int| 0 <= i < g.cells@.len() ==> !(#[trigger] g.cells@[i]).flipped_this_tick,
    {
        proof {
            assert(config.rows * config.cols <= 0x1_0000_0000) by (nonlinear_arith)
                requires
                    config.rows <= crate::config::MAX_DIM,
                    config.cols <= crate::config::MAX_DIM,
            ;
        }
        let count: u64 = (config.rows as u64) * (config.cols as u64);
        let mut cells: Vec<Cell> = Vec::new();
        let mut i: u64 = 0;
        while i < count
            invariant
                i <= count,
                count == config.rows * config.cols,
                config.wf(),
                cells@.len() == i,
                forall|j: int|
                    0 <= j < i ==> (#[trigger] cells@[j]).col == j % (config.cols as int),
                forall|j: int|
                    0 <= j < i ==> (#[trigger] cells@[j]).row == j / (config.cols as int),
                forall|j: int| 0 <= j < i ==> (#[trigger] cells@[j]).orientation == orientation,
                forall|j: int| 0 <= j < i ==> !(#[trigger] cells@[j]).flipped_this_tick,
            decreases count - i,
        {
            proof {
                assert((i as int) / (config.cols as int) < config.rows) by (nonlinear_arith)
                    requires
                        0 < config.cols,
                        (i as int) < config.rows * config.cols,
                ;
            }
            let col: u32 = (i % (config.cols as u64)) as u32;
            let row: u32 = (i / (config.cols as u64)) as u32;
            let cell = Cell { col, row, orientation, flipped_this_tick: false };
            cells.push(cell);
            i = i + 1;
        }
        Grid { config, cells }
    }

    /// One tick: for every cell, an independent flip event with probability
    /// `flip_num / flip_den` is drawn; a hit cell records the event in its
    /// transient flag and redraws its orientation by an independent uniform
    /// draw (which may coincidentally redraw the same orientation); a missed
    /// cell clears its flag and keeps its orientation.  Dimensions and cell
    /// coordinates never change.
    pub fn update(&mut self)
        requires
            old(self).wf(),
        ensures
            final(self).wf(),
            final(self).config == old(self).config,
            final(self).cells@.len() == old(self).cells@.len(),
            forall|i: int|
                0 <= i < old(self).cells@.len() ==> (#[trigger] final(self).cells@[i]).col
                    == old(self).cells@[i].col,
            forall|i: int|
                0 <= i < old(self).cells@.len() ==> (#[trigger] final(self).cells@[i]).row
                    == old(self).cells@[i].row,
            forall|i: int|
                0 <= i < old(self).cells@.len() ==> (!(
                #[trigger] final(self).cells@[i]).flipped_this_tick ==> final(self).cells@[i].orientation
                    == old(self).cells@[i].orientation),
            old(self).config.flip_num == 0 ==> forall|i: int|
                0 <= i < old(self).cells@.len() ==> !(#[trigger] final(self).cells@[i]).flipped_this_tick
                    && final(self).cells@[i].orientation == old(self).cells@[i].orientation,
            old(self).config.flip_num == old(self).config.flip_den ==> forall|i: int|
                0 <= i < old(self).cells@.len() ==> (
                #[trigger] final(self).cells@[i]).flipped_this_tick,
    {
        let ghost orig = self.cells@;
        let num = self.config.flip_num;
        let den = self.config.flip_den;
        let len = self.cells.len();
        let mut i: usize = 0;
        while i < len
            invariant
                i <= len,
                self.config == old(self).config,
                num == self.config.flip_num,
                den == self.config.flip_den,
                self.config.wf(),
                len == self.cells@.len(),
                orig == old(self).cells@,
                orig.len() == len,
                forall|j: int| i <= j < len ==> #[trigger] self.cells@[j] == orig[j],
                forall|j: int|
                    0 <= j < i ==> (#[trigger] self.cells@[j]).col == orig[j].col,
                forall|j: int|
                    0 <= j < i ==> (#[trigger] self.cells@[j]).row == orig[j].row,
                forall|j: int|
                    0 <= j < i ==> (!(#[trigger] self.cells@[j]).flipped_this_tick
                        ==> self.cells@[j].orientation == orig[j].orientation),
                num == 0 ==> forall|j: int|
                    0 <= j < i ==> !(#[trigger] self.cells@[j]).flipped_this_tick
                        && self.cells@[j].orientation == orig[j].orientation,
                num == den ==> forall|j: int|
                    0 <= j < i ==> (#[trigger] self.cells@[j]).flipped_this_tick,
            decreases len - i,
        {
            let flipped = coin(num, den);
            let cell = self.cells[i];
            let orientation = if flipped {
                random_orientation()
            } else {
                cell.orientation
            };
            let updated = Cell { col: cell.col, row: cell.row, orientation, flipped_this_tick: flipped };
            self.cells.set(i, updated);
            i = i + 1;
        }
    }
}

} // verus!
