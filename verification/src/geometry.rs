//! Grid geometry: the transform from host pixels to grid cells, and the
//! containment test on rectangles of cells.

use vstd::prelude::*;

verus! {

/// Width of one grid cell, in host pixel units.
pub const CHAR_WIDTH: i32 = 10;

/// Height of one grid cell, in host pixel units.
pub const CHAR_HEIGHT: i32 = 20;

/// An axis-aligned rectangle of grid cells.
#[derive(Debug, Clone, Copy, PartialEq, Eq, Structural)]
pub struct Rect {
    pub x: u16,
    pub y: u16,
    pub width: u16,
    pub height: u16,
}

impl Rect {
    /// The cell `(col, row)` lies in the rectangle: both axes are half-open,
    /// so the cells on the far edges are outside.
    pub open spec fn covers(self, col: int, row: int) -> bool {
        &&& self.x <= col < self.x + self.width
        &&& self.y <= row < self.y + self.height
    }

    /// Tests whether the cell `(col, row)` lies in the rectangle.
    pub fn contains(&self, col: i32, row: i32) -> (inside: bool)
        ensures
            inside == self.covers(col as int, row as int),
    {
        let left: i32 = self.x as i32;
        let top: i32 = self.y as i32;
        let right: i32 = left + self.width as i32;
        let bottom: i32 = top + self.height as i32;
        left <= col && col < right && top <= row && row < bottom
    }

    /// The rectangle spans the columns of `area` and lies within its rows.
    pub open spec fn band_of(self, area: Rect) -> bool {
        &&& self.x == area.x
        &&& self.width == area.width
        &&& area.y <= self.y
        &&& self.y + self.height <= area.y + area.height
    }

    /// The rectangle that is left when `horizontal` columns are taken from
    /// the left and from the right and `vertical` rows from the top and from
    /// the bottom; the empty rectangle at the origin when the margins do not
    /// fit.
    pub open spec fn shrunk(self, horizontal: u16, vertical: u16) -> Rect {
        let across = if 2 * horizontal > u16::MAX { u16::MAX as int } else { 2 * horizontal };
        let down = if 2 * vertical > u16::MAX { u16::MAX as int } else { 2 * vertical };
        if self.width < across || self.height < down {
            Rect { x: 0, y: 0, width: 0, height: 0 }
        } else {
            Rect {
                x: if self.x + horizontal > u16::MAX { u16::MAX } else { (self.x + horizontal) as u16 },
                y: if self.y + vertical > u16::MAX { u16::MAX } else { (self.y + vertical) as u16 },
                width: (self.width - across) as u16,
                height: (self.height - down) as u16,
            }
        }
    }
}

/// The quotient of `pixel` by `size`, rounded toward zero.
pub open spec fn cell_index(pixel: int, size: int) -> int {
    if pixel >= 0 {
        pixel / size
    } else {
        -((-pixel) / size)
    }
}

/// The grid column of the pixel column `x`.
pub open spec fn grid_col(x: i32) -> int {
    cell_index(x as int, CHAR_WIDTH as int)
}

/// The grid row of the pixel row `y`.
pub open spec fn grid_row(y: i32) -> int {
    cell_index(y as int, CHAR_HEIGHT as int)
}

/// Maps a host pixel position to the grid cell `(col, row)` under it: each
/// coordinate is divided by the cell's size, and the quotient rounded toward
/// zero.
pub fn to_grid_coords(x: i32, y: i32) -> (cell: (i32, i32))
    ensures
        cell.0 == grid_col(x),
        cell.1 == grid_row(y),
{
    (x / CHAR_WIDTH, y / CHAR_HEIGHT)
}

/// A pixel that is not negative lies in its cell: the cell of the pixel
/// `(x, y)` is `(x / 10, y / 20)`, the one whose ten columns and twenty rows
/// of pixels hold it.
pub proof fn lemma_pixel_in_cell(x: i32, y: i32)
    requires
        x >= 0,
        y >= 0,
    ensures
        grid_col(x) == x / 10,
        grid_row(y) == y / 20,
        10 * grid_col(x) <= x < 10 * grid_col(x) + 10,
        20 * grid_row(y) <= y < 20 * grid_row(y) + 20,
{
}

/// A pixel further right never maps to a column further left. The column is
/// a function of the pixel column alone.
pub proof fn lemma_cols_monotonic(x1: i32, x2: i32)
    requires
        x1 <= x2,
    ensures
        grid_col(x1) <= grid_col(x2),
{
}

/// A pixel further down never maps to a row further up. The row is a
/// function of the pixel row alone.
pub proof fn lemma_rows_monotonic(y1: i32, y2: i32)
    requires
        y1 <= y2,
    ensures
        grid_row(y1) <= grid_row(y2),
{
}

/// A rectangle of positive width and height covers its own top-left cell.
pub proof fn lemma_covers_origin(r: Rect)
    requires
        r.width > 0,
        r.height > 0,
    ensures
        r.covers(r.x as int, r.y as int),
{
}

/// No rectangle covers a cell in the column just past its right edge, nor one
/// in the row just past its bottom edge.
pub proof fn lemma_far_edges_excluded(r: Rect, col: int, row: int)
    ensures
        !r.covers(r.x + r.width, row),
        !r.covers(col, r.y + r.height),
{
}

} // verus!
