use vstd::prelude::*;

use crate::config::Color;
use crate::config::Config;
use crate::grid::Cell;
use crate::grid::Grid;
use crate::grid::Orientation;

verus! {

/// A point in grid space: cell-corner coordinates, in cell units.
#[derive(Clone, Copy, Debug, PartialEq, Eq, Structural)]
pub struct GridPoint {
    pub x: u32,
    pub y: u32,
}

/// A line segment in grid space, from one cell corner to another.
#[derive(Clone, Copy, Debug, PartialEq, Eq, Structural)]
pub struct Segment {
    pub from: GridPoint,
    pub to: GridPoint,
}

/// The segment a cell contributes, in grid space: a `Forward` cell at
/// `(c, r)` draws `(c, r+1) -> (c+1, r)`, a `Backward` cell draws
/// `(c, r) -> (c+1, r+1)`.  A function of that one cell alone.
pub open spec fn segment_of(cell: Cell) -> Segment {
    match cell.orientation {
        Orientation::Forward => Segment {
            from: GridPoint { x: cell.col, y: (cell.row + 1) as u32 },
            to: GridPoint { x: (cell.col + 1) as u32, y: cell.row },
        },
        Orientation::Backward => Segment {
            from: GridPoint { x: cell.col, y: cell.row },
            to: GridPoint { x: (cell.col + 1) as u32, y: (cell.row + 1) as u32 },
        },
    }
}

/// Computes `segment_of` for one cell, spelling the endpoint mapping out
/// for both orientations.
pub fn cell_segment(cell: &Cell) -> (s: Segment)
    requires
        cell.col < u32::MAX,
        cell.row < u32::MAX,
    ensures
        s == segment_of(*cell),
        cell.orientation == Orientation::Forward ==> s.from.x == cell.col && s.from.y == cell.row
            + 1 && s.to.x == cell.col + 1 && s.to.y == cell.row,
        cell.orientation == Orientation::Backward ==> s.from.x == cell.col && s.from.y == cell.row
            && s.to.x == cell.col + 1 && s.to.y == cell.row + 1,
{
    match cell.orientation {
        Orientation::Forward => Segment {
            from: GridPoint { x: cell.col, y: cell.row + 1 },
            to: GridPoint { x: cell.col + 1, y: cell.row },
        },
        Orientation::Backward => Segment {
            from: GridPoint { x: cell.col, y: cell.row },
            to: GridPoint { x: cell.col + 1, y: cell.row + 1 },
        },
    }
}

/// One drawing instruction for the display host, in the order issued.
#[derive(Clone, Copy, Debug, PartialEq, Eq, Structural)]
pub enum DrawCmd {
    /// Fill the whole surface with a color.
    Fill { color: Color },
    /// Stroke one segment, given in grid space, with a color; the host
    /// applies the surface transform and the configured stroke weight.
    Stroke { segment: Segment, color: Color },
}

/// The full frame a grid renders to: one background fill, then one stroke
/// per cell in grid order.  A pure function of the grid state.
pub open spec fn frame_of(g: Grid) -> Seq<DrawCmd> {
    Seq::new(
        g.cells@.len() + 1,
        |i: int|
            if i == 0 {
                DrawCmd::Fill { color: g.config.background }
            } else {
                DrawCmd::Stroke {
                    segment: segment_of(g.cells@[i - 1]),
                    color: g.config.foreground,
                }
            },
    )
}

/// Renders a grid into its frame: the background fill first, exactly once,
/// then one foreground stroke per cell, each determined by that cell alone.
pub fn render(g: &Grid) -> (cmds: Vec<DrawCmd>)
    requires
        g.wf(),
    ensures
        cmds@ == frame_of(*g),
        cmds@.len() == 1 + g.cells@.len(),
        cmds@[0] == (DrawCmd::Fill { color: g.config.background }),
        forall|i: int|
            1 <= i < cmds@.len() ==> cmds@[i] == (DrawCmd::Stroke {
                segment: segment_of(g.cells@[i - 1]),
                color: g.config.foreground,
            }),
{
    let mut cmds: Vec<DrawCmd> = Vec::new();
    cmds.push(DrawCmd::Fill { color: g.config.background });
    let len = g.cells.len();
    let mut i: usize = 0;
    while i < len
        invariant
            i <= len,
            g.wf(),
            len == g.cells@.len(),
            cmds@.len() == i + 1,
            cmds@[0] == (DrawCmd::Fill { color: g.config.background }),
            forall|j: int|
                1 <= j < cmds@.len() ==> cmds@[j] == (DrawCmd::Stroke {
                    segment: segment_of(g.cells@[j - 1]),
                    color: g.config.foreground,
                }),
        decreases len - i,
    {
        let cell = g.cells[i];
        proof {
            assert((i as int) / (g.config.cols as int) < g.config.rows) by (nonlinear_arith)
                requires
                    0 < g.config.cols,
                    (i as int) < g.config.rows * g.config.cols,
            ;
        }
        cmds.push(DrawCmd::Stroke { segment: cell_segment(&cell), color: g.config.foreground });
        i = i + 1;
    }
    proof {
        assert(cmds@ =~= frame_of(*g));
    }
    cmds
}

/// Rendering is idempotent and pure: grids with the same configuration and
/// the same cells render to the same frame, so two renderings with no
/// intervening update yield identical command sequences.
pub proof fn lemma_render_pure(a: Grid, b: Grid)
    requires
        a.config == b.config,
        a.cells@ == b.cells@,
    ensures
        frame_of(a) == frame_of(b),
{
    assert(frame_of(a) =~= frame_of(b));
}

/// A point in surface coordinates, measured in half-units (twice the real
/// coordinate), so that centering a grid with odd dimensions stays exact.
/// The real coordinate is `x2 / 2`, `y2 / 2`.
#[derive(Clone, Copy, Debug, PartialEq, Eq, Structural)]
pub struct SurfacePoint {
    pub x2: i64,
    pub y2: i64,
}

/// The surface transform: grid space scaled by the cell size and translated
/// so the grid is centered at the surface origin, with the vertical axis
/// inverted so row 0 sits at the conventional top.  A pure, stateless
/// function of the cell size and the grid dimensions, applied identically
/// to every point of every frame.
pub fn to_surface(config: &Config, p: GridPoint) -> (s: SurfacePoint)
    requires
        config.wf(),
        p.x <= config.cols,
        p.y <= config.rows,
    ensures
        s.x2 == 2 * (config.cell_size * p.x) - config.cell_size * config.cols,
        s.y2 == config.cell_size * config.rows - 2 * (config.cell_size * p.y),
{
    proof {
        assert(0 <= config.cell_size * p.x <= 0x1_0000_0000 && 0 <= config.cell_size * config.cols
            <= 0x1_0000_0000 && 0 <= config.cell_size * p.y <= 0x1_0000_0000 && 0
            <= config.cell_size * config.rows <= 0x1_0000_0000) by (nonlinear_arith)
            requires
                config.cell_size <= crate::config::MAX_DIM,
                config.cols <= crate::config::MAX_DIM,
                config.rows <= crate::config::MAX_DIM,
                p.x <= config.cols,
                p.y <= config.rows,
        ;
    }
    let size = config.cell_size as i64;
    let sx = size * (p.x as i64);
    let sy = size * (p.y as i64);
    let sc = size * (config.cols as i64);
    let sr = size * (config.rows as i64);
    let x2 = 2 * sx - sc;
    let y2 = sr - 2 * sy;
    SurfacePoint { x2, y2 }
}

} // verus!
