use vstd::prelude::*;

verus! {

/// An RGB color.  The library never interprets colors; it only places them
/// in the draw commands that the display host executes.
#[derive(Clone, Copy, Debug, PartialEq, Eq, Structural)]
pub struct Color {
    pub red: u8,
    pub green: u8,
    pub blue: u8,
}

/// Upper bound on the grid dimensions and the cell size, generous enough for
/// any on-screen grid while keeping every coordinate product comfortably
/// inside the machine integer types.
pub const MAX_DIM: u32 = 0x10000;

/// The immutable configuration shared by the grid model and the renderer:
/// grid dimensions, cell size, stroke weight, flip probability and colors.
///
/// Probabilities and the stroke weight are exact rationals (numerator over
/// denominator), so the contracts can speak about them precisely.
#[derive(Clone, Copy, Debug, PartialEq, Eq, Structural)]
pub struct Config {
    /// Number of rows in the grid; always positive.
    pub rows: u32,
    /// Number of columns in the grid; always positive.
    pub cols: u32,
    /// Side length of one square cell, in surface units.
    pub cell_size: u32,
    /// Stroke weight of a diagonal, as the fraction
    /// `weight_num / weight_den` of one cell's size.
    pub weight_num: u32,
    pub weight_den: u32,
    /// Per-cell, per-tick flip probability, as the ratio
    /// `flip_num / flip_den`.
    pub flip_num: u32,
    pub flip_den: u32,
    /// Background color, filled once per frame before any segment.
    pub background: Color,
    /// Foreground color of every segment.
    pub foreground: Color,
}

impl Config {
    /// Well-formedness: positive dimensions within `MAX_DIM`, and both
    /// rationals proper fractions with positive denominators.
    pub open spec fn wf(self) -> bool {
        &&& 0 < self.rows <= MAX_DIM
        &&& 0 < self.cols <= MAX_DIM
        &&& 0 < self.cell_size <= MAX_DIM
        &&& 0 < self.weight_den
        &&& self.weight_num <= self.weight_den
        &&& 0 < self.flip_den
        &&& self.flip_num <= self.flip_den
    }

    /// The stock configuration of the sketch: a 30-by-30 grid of cells 30
    /// units wide, stroke weight one twentieth of a cell, a flip chance of
    /// one in twenty thousand per cell per tick, dark slate blue background
    /// and snow-white segments.
    pub fn standard() -> (c: Config)
        ensures
            c.wf(),
            c == (Config {
                rows: 30,
                cols: 30,
                cell_size: 30,
                weight_num: 1,
                weight_den: 20,
                flip_num: 1,
                flip_den: 20000,
                background: Color { red: 72, green: 61, blue: 139 },
                foreground: Color { red: 255, green: 250, blue: 250 },
            }),
    {
        Config {
            rows: 30,
            cols: 30,
            cell_size: 30,
            weight_num: 1,
            weight_den: 20,
            flip_num: 1,
            flip_den: 20000,
            background: Color { red: 72, green: 61, blue: 139 },
            foreground: Color { red: 255, green: 250, blue: 250 },
        }
    }

    /// Width of the surface the display host should provide, in surface
    /// units: one cell size per column.
    pub fn surface_width(&self) -> (w: u64)
        requires
            self.wf(),
        ensures
            w == self.cols * self.cell_size,
    {
        proof {
            assert(self.cols * self.cell_size <= 0x1_0000_0000) by (nonlinear_arith)
                requires
                    self.cols <= MAX_DIM,
                    self.cell_size <= MAX_DIM,
            ;
        }
        (self.cols as u64) * (self.cell_size as u64)
    }

    /// Height of the surface the display host should provide, in surface
    /// units: one cell size per row.
    pub fn surface_height(&self) -> (h: u64)
        requires
            self.wf(),
        ensures
            h == self.rows * self.cell_size,
    {
        proof {
            assert(self.rows * self.cell_size <= 0x1_0000_0000) by (nonlinear_arith)
                requires
                    self.rows <= MAX_DIM,
                    self.cell_size <= MAX_DIM,
            ;
        }
        (self.rows as u64) * (self.cell_size as u64)
    }
}

} // verus!
