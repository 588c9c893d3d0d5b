use vstd::prelude::*;

use crate::key_index::{col_index_map, col_map, row_index_map, row_map, KeyIndex};
use crate::keys::{col_position, row_position, Key, Side};

verus! {

/// A point on the screen, exact, in sixtieths of a pixel.
///
/// The grid has 10 columns and 30 rows, and a cell is split into thirds, so
/// every point the overlay aims at is a whole number of sixtieths of a pixel.
#[derive(PartialEq, Eq, Structural, Clone, Copy, Debug)]
pub struct ScreenPoint {
    pub x_sixtieths: u64,
    pub y_sixtieths: u64,
}

/// The x coordinate, in sixtieths of a pixel, of the center of column `col`
/// on a screen `width` pixels wide: `(col + 1/2) * width / 10`.
pub open spec fn center_x(col: int, width: int) -> int {
    (6 * col + 3) * width
}

/// The y coordinate, in sixtieths of a pixel, of the center of row `row` on a
/// screen `height` pixels high: `(row + 1/2) * height / 30`.
pub open spec fn center_y(row: int, height: int) -> int {
    (2 * row + 1) * height
}

/// The x coordinate, in sixtieths of a pixel, of the center of the left or
/// the right third of column `col`: `col * width / 10` plus one sixth, or
/// five sixths, of the column's width.
pub open spec fn third_x(col: int, side: Side, width: int) -> int {
    match side {
        Side::Left => (6 * col + 1) * width,
        Side::Right => (6 * col + 5) * width,
    }
}

/// The point at the center of the cell in column `col` and row `row` of a
/// grid that covers `width` by `height` pixels.
pub open spec fn cell_point(col: int, row: int, width: int, height: int) -> ScreenPoint {
    ScreenPoint { x_sixtieths: center_x(col, width) as u64, y_sixtieths: center_y(row, height) as u64 }
}

/// The point at the center of the left or the right third of a cell.
pub open spec fn third_point(col: int, row: int, side: Side, width: int, height: int) -> ScreenPoint {
    ScreenPoint { x_sixtieths: third_x(col, side, width) as u64, y_sixtieths: center_y(row, height) as u64 }
}

/// The center of the cell in column `col` and row `row` of a grid that covers
/// `width` by `height` pixels.
pub fn cell_center(col: usize, row: usize, width: u32, height: u32) -> (p: ScreenPoint)
    requires
        col < 10,
        row < 30,
    ensures
        p == cell_point(col as int, row as int, width as int, height as int),
        p.x_sixtieths == center_x(col as int, width as int),
        p.y_sixtieths == center_y(row as int, height as int),
{
    let c = col as u64;
    let r = row as u64;
    let w = width as u64;
    let h = height as u64;
    assert((6 * c + 3) * w <= 63 * 0xffff_ffffu64) by (nonlinear_arith)
        requires c < 10, w <= 0xffff_ffffu64;
    assert((2 * r + 1) * h <= 59 * 0xffff_ffffu64) by (nonlinear_arith)
        requires r < 30, h <= 0xffff_ffffu64;
    ScreenPoint { x_sixtieths: (6 * c + 3) * w, y_sixtieths: (2 * r + 1) * h }
}

/// The center of the left or the right third of the cell in column `col` and
/// row `row` of a grid that covers `width` by `height` pixels.
pub fn third_center(col: usize, row: usize, side: Side, width: u32, height: u32) -> (p: ScreenPoint)
    requires
        col < 10,
        row < 30,
    ensures
        p == third_point(col as int, row as int, side, width as int, height as int),
        p.x_sixtieths == third_x(col as int, side, width as int),
        p.y_sixtieths == center_y(row as int, height as int),
{
    let c = col as u64;
    let r = row as u64;
    let w = width as u64;
    let h = height as u64;
    assert((6 * c + 5) * w <= 65 * 0xffff_ffffu64 && (6 * c + 1) * w <= 61 * 0xffff_ffffu64)
        by (nonlinear_arith)
        requires c < 10, w <= 0xffff_ffffu64;
    assert((2 * r + 1) * h <= 59 * 0xffff_ffffu64) by (nonlinear_arith)
        requires r < 30, h <= 0xffff_ffffu64;
    let x = match side {
        Side::Left => (6 * c + 1) * w,
        Side::Right => (6 * c + 5) * w,
    };
    ScreenPoint { x_sixtieths: x, y_sixtieths: (2 * r + 1) * h }
}

/// What the grid gives for a column key and a row key: the center of their
/// cell, or `None` when either key is not on the grid.
pub open spec fn cell_lookup(col_key: Key, row_key: Key, width: int, height: int) -> Option<ScreenPoint> {
    match (col_position(col_key), row_position(row_key)) {
        (Some(c), Some(r)) => Some(cell_point(c, r, width, height)),
        _ => None,
    }
}

/// What the grid gives for a column key, a row key and a side: the center of
/// that third of their cell, or `None` when either key is not on the grid.
pub open spec fn third_lookup(col_key: Key, row_key: Key, side: Side, width: int, height: int) -> Option<ScreenPoint> {
    match (col_position(col_key), row_position(row_key)) {
        (Some(c), Some(r)) => Some(third_point(c, r, side, width, height)),
        _ => None,
    }
}

/// Maps key pairs to screen points on a screen of a given size, through
/// lookup tables from column keys to columns and from row keys to rows.
pub struct GridEngine {
    pub screen_w: u32,
    pub screen_h: u32,
    pub cols: KeyIndex,
    pub rows: KeyIndex,
}

impl GridEngine {
    /// The lookup tables hold the column and the row keys with their positions.
    pub closed spec fn wf(&self) -> bool {
        &&& self.cols@ == col_index_map()
        &&& self.rows@ == row_index_map()
    }

    /// A grid over a screen of `w` by `h` pixels.
    pub fn new(w: u32, h: u32) -> (g: GridEngine)
        ensures
            g.wf(),
            g.screen_w == w,
            g.screen_h == h,
    {
        let (cols, rows) = Self::init_maps();
        GridEngine { screen_w: w, screen_h: h, cols, rows }
    }

    /// Builds the tables from column keys to columns and from row keys to rows.
    fn init_maps() -> (maps: (KeyIndex, KeyIndex))
        ensures
            maps.0@ == col_index_map(),
            maps.1@ == row_index_map(),
    {
        let rows = row_map();
        let cols = col_map();
        (cols, rows)
    }

    /// The center of the cell chosen by a column key and a row key, or `None`
    /// when either key is not on the grid.
    pub fn get_coords(&self, col_key: Key, row_key: Key) -> (r: Option<ScreenPoint>)
        requires
            self.wf(),
        ensures
            r == cell_lookup(col_key, row_key, self.screen_w as int, self.screen_h as int),
    {
        let col_idx = match self.cols.get(col_key) {
            Some(i) => i,
            None => return None,
        };
        let row_idx = match self.rows.get(row_key) {
            Some(i) => i,
            None => return None,
        };
        Some(cell_center(col_idx, row_idx, self.screen_w, self.screen_h))
    }
}

} // verus!
