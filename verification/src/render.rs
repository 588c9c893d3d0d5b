use vstd::prelude::*;

use crate::keys::{col_keys, key_label, row_keys};
use crate::navigation::OverlayApp;
use vstd::arithmetic::div_mod::{
    lemma_fundamental_div_mod, lemma_fundamental_div_mod_converse, lemma_mod_bound,
};

verus! {

/// The color of the grid lines.
pub const WHITE: u32 = 0xFFFFFF;

/// Whether column `x` of pixels lies on one of the eleven vertical grid
/// lines: two pixels wide, at the left edge of each of the ten columns of
/// width `cw` and at the right edge of the last one.
pub open spec fn on_vertical_line(x: int, cw: int) -> bool {
    exists|c: int| 0 <= c <= 10 && #[trigger] (c * cw) <= x < c * cw + 2
}

/// Whether row `y` of pixels lies on one of the thirty-one horizontal grid
/// lines: one pixel high, at the top edge of each of the thirty rows of
/// height `ch` and at the bottom edge of the last one.
pub open spec fn on_horizontal_line(y: int, ch: int) -> bool {
    exists|r: int| 0 <= r <= 30 && y == #[trigger] (r * ch)
}

/// The palette entry of column `col`: the colors are symmetric, the outer
/// columns share the first color and the two middle ones the fifth.
pub open spec fn column_color_index(col: int) -> int {
    if col < 5 {
        col
    } else {
        9 - col
    }
}

/// The color of pixel (`x`, `y`) of the grid, for columns `cw` pixels wide
/// and rows `ch` pixels high: white on a grid line, else the background of
/// its column, else (right of the last column) transparent black.
pub open spec fn grid_pixel(x: int, y: int, cw: int, ch: int, palette: Seq<u32>) -> u32 {
    if on_vertical_line(x, cw) || on_horizontal_line(y, ch) {
        WHITE
    } else if 0 < cw && x < 10 * cw {
        palette[column_color_index(x / cw)]
    } else {
        0
    }
}

/// The value of entry `j` of a frame buffer `bw` by `bh` pixels, row after
/// row, once the grid of a `gw` by `gh` overlay is painted: entries past the
/// last row stay transparent black.
pub open spec fn grid_frame_pixel(j: int, bw: int, bh: int, gw: int, gh: int, palette: Seq<u32>) -> u32 {
    if 0 < bw && j / bw < bh {
        grid_pixel(j % bw, j / bw, gw / 10, gh / 30, palette)
    } else {
        0
    }
}

/// Whether a pixel column is on a vertical line, by division.
pub proof fn lemma_vertical_line(x: int, cw: int)
    requires
        0 <= x,
        0 <= cw,
    ensures
        on_vertical_line(x, cw) <==> (if cw == 0 {
            x < 2
        } else if cw == 1 {
            x <= 11
        } else {
            x % cw < 2 && x / cw <= 10
        }),
{
    if cw == 0 {
        if x < 2 {
            assert(0 * cw <= x < 0 * cw + 2);
        }
        if on_vertical_line(x, cw) {
            let c = choose|c: int| 0 <= c <= 10 && #[trigger] (c * cw) <= x < c * cw + 2;
            assert(c * cw == 0);
        }
    } else if cw == 1 {
        if x <= 11 {
            let c = if x <= 10 { x } else { 10 };
            assert(c * cw == c);
            assert(c * cw <= x < c * cw + 2);
        }
        if on_vertical_line(x, cw) {
            let c = choose|c: int| 0 <= c <= 10 && #[trigger] (c * cw) <= x < c * cw + 2;
            assert(c * cw == c);
        }
    } else {
        lemma_fundamental_div_mod(x, cw);
        lemma_mod_bound(x, cw);
        if x % cw < 2 && x / cw <= 10 {
            let c = x / cw;
            assert(c * cw == cw * (x / cw)) by (nonlinear_arith)
                requires c == x / cw;
            assert(0 <= c) by (nonlinear_arith)
                requires c == x / cw, 0 <= x, 0 < cw;
            assert(c * cw <= x < c * cw + 2);
        }
        if on_vertical_line(x, cw) {
            let c = choose|c: int| 0 <= c <= 10 && #[trigger] (c * cw) <= x < c * cw + 2;
            lemma_fundamental_div_mod_converse(x, cw, c, x - c * cw);
        }
    }
}

/// Whether a pixel row is on a horizontal line, by division.
pub proof fn lemma_horizontal_line(y: int, ch: int)
    requires
        0 <= y,
        0 <= ch,
    ensures
        on_horizontal_line(y, ch) <==> (if ch == 0 {
            y == 0
        } else {
            y % ch == 0 && y / ch <= 30
        }),
{
    if ch == 0 {
        if y == 0 {
            assert(y == 0 * ch);
        }
        if on_horizontal_line(y, ch) {
            let r = choose|r: int| 0 <= r <= 30 && y == #[trigger] (r * ch);
            assert(r * ch == 0);
        }
    } else {
        lemma_fundamental_div_mod(y, ch);
        if y % ch == 0 && y / ch <= 30 {
            let r = y / ch;
            assert(r * ch == ch * (y / ch)) by (nonlinear_arith)
                requires r == y / ch;
            assert(0 <= r) by (nonlinear_arith)
                requires r == y / ch, 0 <= y, 0 < ch;
            assert(y == r * ch);
        }
        if on_horizontal_line(y, ch) {
            let r = choose|r: int| 0 <= r <= 30 && y == #[trigger] (r * ch);
            lemma_fundamental_div_mod_converse(y, ch, r, 0);
        }
    }
}

/// The color of pixel (`x`, `y`) of the grid.
pub fn grid_pixel_value(x: u32, y: u32, cw: u32, ch: u32, palette: &[u32; 5]) -> (v: u32)
    ensures
        v == grid_pixel(x as int, y as int, cw as int, ch as int, palette@),
{
    proof {
        lemma_vertical_line(x as int, cw as int);
        lemma_horizontal_line(y as int, ch as int);
    }
    let vertical = if cw == 0 {
        x < 2
    } else if cw == 1 {
        x <= 11
    } else {
        x % cw < 2 && x / cw <= 10
    };
    let horizontal = if ch == 0 {
        y == 0
    } else {
        y % ch == 0 && y / ch <= 30
    };
    if vertical || horizontal {
        WHITE
    } else if 0 < cw && (x as u64) < 10 * (cw as u64) {
        let col = x / cw;
        proof {
            assert(col < 10) by (nonlinear_arith)
                requires col == x / cw, x < 10 * cw, 0 < cw;
        }
        let idx = if col < 5 { col } else { 9 - col };
        palette[idx as usize]
    } else {
        0
    }
}

/// Paints the grid of a `grid_width` by `grid_height` overlay into a frame
/// buffer of `buf_width` by `buf_height` pixels, row after row: ten columns
/// with the symmetric backgrounds of `palette`, white lines between them and
/// between thirty rows, and transparent black everywhere else.
pub fn paint_grid(
    buffer: &mut [u32],
    buf_width: u32,
    buf_height: u32,
    grid_width: u32,
    grid_height: u32,
    palette: &[u32; 5],
)
    ensures
        final(buffer)@.len() == old(buffer)@.len(),
        forall|j: int|
            0 <= j < final(buffer)@.len() ==> #[trigger] final(buffer)@[j] == grid_frame_pixel(
                j,
                buf_width as int,
                buf_height as int,
                grid_width as int,
                grid_height as int,
                palette@,
            ),
{
    let cw = grid_width / 10;
    let ch = grid_height / 30;
    let n = buffer.len();
    let bw = buf_width as usize;
    let bh = buf_height as usize;
    let ghost pal = palette@;
    for j in 0..n
        invariant
            n == buffer@.len(),
            bw == buf_width,
            bh == buf_height,
            cw == grid_width / 10,
            ch == grid_height / 30,
            pal == palette@,
            forall|i: int|
                0 <= i < j ==> #[trigger] buffer@[i] == grid_frame_pixel(
                    i,
                    buf_width as int,
                    buf_height as int,
                    grid_width as int,
                    grid_height as int,
                    pal,
                ),
    {
        let v = if bw == 0 {
            0
        } else {
            let y = j / bw;
            if y < bh {
                let x = j % bw;
                proof {
                    lemma_mod_bound(j as int, bw as int);
                }
                grid_pixel_value(x as u32, y as u32, cw, ch, palette)
            } else {
                0
            }
        };
        buffer[j] = v;
    }
}

impl OverlayApp {
    /// Whether the overlay has a grid to paint: both of its sides are nonzero.
    pub fn has_grid(&self) -> (r: bool)
        ensures
            r == (self.grid_width != 0 && self.grid_height != 0),
    {
        self.grid_width != 0 && self.grid_height != 0
    }

    /// Paints the grid into a frame buffer of `buf_width` by `buf_height`
    /// pixels and from then on accepts keys; does nothing when the overlay
    /// has no grid yet.
    pub fn render_grid(&mut self, buffer: &mut [u32], buf_width: u32, buf_height: u32, palette: &[u32; 5]) -> (painted: bool)
        ensures
            painted == (old(self).grid_width != 0 && old(self).grid_height != 0),
            painted ==> *final(self) == (OverlayApp { ready_for_input: true, ..*old(self) }),
            painted ==> final(buffer)@.len() == old(buffer)@.len(),
            painted ==> forall|j: int|
                0 <= j < final(buffer)@.len() ==> #[trigger] final(buffer)@[j] == grid_frame_pixel(
                    j,
                    buf_width as int,
                    buf_height as int,
                    old(self).grid_width as int,
                    old(self).grid_height as int,
                    palette@,
                ),
            !painted ==> *final(self) == *old(self) && final(buffer)@ == old(buffer)@,
    {
        if !self.has_grid() {
            return false;
        }
        paint_grid(buffer, buf_width, buf_height, self.grid_width, self.grid_height, palette);
        self.ready_for_input = true;
        true
    }
}

/// The characters printed on the column keys, left to right.
pub open spec fn col_chars() -> Seq<char> {
    seq!['A', 'S', 'D', 'F', 'G', 'H', 'J', 'K', 'L', ';']
}

/// The characters printed on the row keys, top to bottom.
pub open spec fn row_chars() -> Seq<char> {
    seq!['Q', 'W', 'E', 'R', 'T', 'Y', 'U', 'I', 'O', 'P', 'A', 'S', 'D', 'F', 'G', 'H', 'J', 'K', 'L', ';', 'Z', 'X', 'C', 'V', 'B', 'N', 'M', ',', '.', '/']
}

/// The printed characters are those of the column and the row keys.
pub proof fn lemma_key_chars()
    ensures
        forall|i: int| 0 <= i < 10 ==> key_label(#[trigger] col_keys()[i]) == Some(col_chars()[i]),
        forall|i: int| 0 <= i < 30 ==> key_label(#[trigger] row_keys()[i]) == Some(row_chars()[i]),
{
    assert forall|i: int| 0 <= i < 10 implies key_label(#[trigger] col_keys()[i]) == Some(col_chars()[i]) by {
        if i == 0 { assert(col_keys()[0] == crate::keys::Key::KeyA && col_chars()[0] == 'A'); }
        else if i == 1 { assert(col_keys()[1] == crate::keys::Key::KeyS && col_chars()[1] == 'S'); }
        else if i == 2 { assert(col_keys()[2] == crate::keys::Key::KeyD && col_chars()[2] == 'D'); }
        else if i == 3 { assert(col_keys()[3] == crate::keys::Key::KeyF && col_chars()[3] == 'F'); }
        else if i == 4 { assert(col_keys()[4] == crate::keys::Key::KeyG && col_chars()[4] == 'G'); }
        else if i == 5 { assert(col_keys()[5] == crate::keys::Key::KeyH && col_chars()[5] == 'H'); }
        else if i == 6 { assert(col_keys()[6] == crate::keys::Key::KeyJ && col_chars()[6] == 'J'); }
        else if i == 7 { assert(col_keys()[7] == crate::keys::Key::KeyK && col_chars()[7] == 'K'); }
        else if i == 8 { assert(col_keys()[8] == crate::keys::Key::KeyL && col_chars()[8] == 'L'); }
        else if i == 9 { assert(col_keys()[9] == crate::keys::Key::SemiColon && col_chars()[9] == ';'); }
    }
    assert forall|i: int| 0 <= i < 30 implies key_label(#[trigger] row_keys()[i]) == Some(row_chars()[i]) by {
        if i == 0 { assert(row_keys()[0] == crate::keys::Key::KeyQ && row_chars()[0] == 'Q'); }
        else if i == 1 { assert(row_keys()[1] == crate::keys::Key::KeyW && row_chars()[1] == 'W'); }
        else if i == 2 { assert(row_keys()[2] == crate::keys::Key::KeyE && row_chars()[2] == 'E'); }
        else if i == 3 { assert(row_keys()[3] == crate::keys::Key::KeyR && row_chars()[3] == 'R'); }
        else if i == 4 { assert(row_keys()[4] == crate::keys::Key::KeyT && row_chars()[4] == 'T'); }
        else if i == 5 { assert(row_keys()[5] == crate::keys::Key::KeyY && row_chars()[5] == 'Y'); }
        else if i == 6 { assert(row_keys()[6] == crate::keys::Key::KeyU && row_chars()[6] == 'U'); }
        else if i == 7 { assert(row_keys()[7] == crate::keys::Key::KeyI && row_chars()[7] == 'I'); }
        else if i == 8 { assert(row_keys()[8] == crate::keys::Key::KeyO && row_chars()[8] == 'O'); }
        else if i == 9 { assert(row_keys()[9] == crate::keys::Key::KeyP && row_chars()[9] == 'P'); }
        else if i == 10 { assert(row_keys()[10] == crate::keys::Key::KeyA && row_chars()[10] == 'A'); }
        else if i == 11 { assert(row_keys()[11] == crate::keys::Key::KeyS && row_chars()[11] == 'S'); }
        else if i == 12 { assert(row_keys()[12] == crate::keys::Key::KeyD && row_chars()[12] == 'D'); }
        else if i == 13 { assert(row_keys()[13] == crate::keys::Key::KeyF && row_chars()[13] == 'F'); }
        else if i == 14 { assert(row_keys()[14] == crate::keys::Key::KeyG && row_chars()[14] == 'G'); }
        else if i == 15 { assert(row_keys()[15] == crate::keys::Key::KeyH && row_chars()[15] == 'H'); }
        else if i == 16 { assert(row_keys()[16] == crate::keys::Key::KeyJ && row_chars()[16] == 'J'); }
        else if i == 17 { assert(row_keys()[17] == crate::keys::Key::KeyK && row_chars()[17] == 'K'); }
        else if i == 18 { assert(row_keys()[18] == crate::keys::Key::KeyL && row_chars()[18] == 'L'); }
        else if i == 19 { assert(row_keys()[19] == crate::keys::Key::SemiColon && row_chars()[19] == ';'); }
        else if i == 20 { assert(row_keys()[20] == crate::keys::Key::KeyZ && row_chars()[20] == 'Z'); }
        else if i == 21 { assert(row_keys()[21] == crate::keys::Key::KeyX && row_chars()[21] == 'X'); }
        else if i == 22 { assert(row_keys()[22] == crate::keys::Key::KeyC && row_chars()[22] == 'C'); }
        else if i == 23 { assert(row_keys()[23] == crate::keys::Key::KeyV && row_chars()[23] == 'V'); }
        else if i == 24 { assert(row_keys()[24] == crate::keys::Key::KeyB && row_chars()[24] == 'B'); }
        else if i == 25 { assert(row_keys()[25] == crate::keys::Key::KeyN && row_chars()[25] == 'N'); }
        else if i == 26 { assert(row_keys()[26] == crate::keys::Key::KeyM && row_chars()[26] == 'M'); }
        else if i == 27 { assert(row_keys()[27] == crate::keys::Key::Comma && row_chars()[27] == ','); }
        else if i == 28 { assert(row_keys()[28] == crate::keys::Key::Dot && row_chars()[28] == '.'); }
        else if i == 29 { assert(row_keys()[29] == crate::keys::Key::Slash && row_chars()[29] == '/'); }
    }
}

/// The label of one cell: the characters of its column key and its row key,
/// and the top-left corner of the cell in pixels.
#[derive(PartialEq, Eq, Structural, Clone, Copy, Debug)]
pub struct CellLabel {
    pub col_char: char,
    pub row_char: char,
    pub cell_x: u32,
    pub cell_y: u32,
}

/// The label of cell number `i`, counting the cells column by column, each
/// column from the top, on a `gw` by `gh` grid.
pub open spec fn label_at(i: int, gw: int, gh: int) -> CellLabel {
    let col = i / 30;
    let row = i % 30;
    CellLabel {
        col_char: col_chars()[col],
        row_char: row_chars()[row],
        cell_x: (col * (gw / 10)) as u32,
        cell_y: (row * (gh / 30)) as u32,
    }
}

/// The labels of the three hundred cells of a `grid_width` by `grid_height`
/// grid, column by column, each column from the top.
pub fn cell_labels(grid_width: u32, grid_height: u32) -> (labels: Vec<CellLabel>)
    ensures
        labels@ == Seq::new(300, |i: int| label_at(i, grid_width as int, grid_height as int)),
{
    let col_letters: Vec<char> = vec!['A', 'S', 'D', 'F', 'G', 'H', 'J', 'K', 'L', ';'];
    let row_letters: Vec<char> = vec!['Q', 'W', 'E', 'R', 'T', 'Y', 'U', 'I', 'O', 'P', 'A', 'S', 'D', 'F', 'G', 'H', 'J', 'K', 'L', ';', 'Z', 'X', 'C', 'V', 'B', 'N', 'M', ',', '.', '/'];
    proof {
        assert(col_letters@ =~= col_chars());
        assert(row_letters@ =~= row_chars());
    }
    let cell_w = grid_width / 10;
    let cell_h = grid_height / 30;
    let mut labels: Vec<CellLabel> = Vec::new();
    for col_idx in 0..10usize
        invariant
            col_letters@ == col_chars(),
            row_letters@ == row_chars(),
            cell_w == grid_width / 10,
            cell_h == grid_height / 30,
            labels@.len() == 30 * col_idx,
            forall|i: int| 0 <= i < labels@.len() ==> #[trigger] labels@[i] == label_at(i, grid_width as int, grid_height as int),
    {
        for row_idx in 0..30usize
            invariant
                col_idx < 10,
                col_letters@ == col_chars(),
                row_letters@ == row_chars(),
                cell_w == grid_width / 10,
                cell_h == grid_height / 30,
                labels@.len() == 30 * col_idx + row_idx,
                forall|i: int| 0 <= i < labels@.len() ==> #[trigger] labels@[i] == label_at(i, grid_width as int, grid_height as int),
        {
            assert(col_idx * (cell_w as usize) <= 9 * (cell_w as usize)) by (nonlinear_arith)
                requires col_idx < 10;
            assert(row_idx * (cell_h as usize) <= 29 * (cell_h as usize)) by (nonlinear_arith)
                requires row_idx < 30;
            let cell_x = (col_idx * cell_w as usize) as u32;
            let cell_y = (row_idx * cell_h as usize) as u32;
            let label = CellLabel { col_char: col_letters[col_idx], row_char: row_letters[row_idx], cell_x, cell_y };
            proof {
                let i = 30 * col_idx + row_idx;
                lemma_fundamental_div_mod_converse(i as int, 30, col_idx as int, row_idx as int);
                assert(label == label_at(i as int, grid_width as int, grid_height as int));
            }
            labels.push(label);
        }
    }
    proof {
        assert(labels@ =~= Seq::new(300, |i: int| label_at(i, grid_width as int, grid_height as int)));
    }
    labels
}

/// Byte `k` (0 for the lowest) of a pixel value.
pub open spec fn channel(pixel: u32, k: int) -> int {
    (pixel as int / pow256(k)) % 256
}

/// 256 to the power `k`, for the three color bytes.
pub open spec fn pow256(k: int) -> int {
    if k == 0 {
        1
    } else if k == 1 {
        256
    } else {
        65536
    }
}

/// The pixel with the three color bytes `lo`, `mid` and `hi`, lowest first.
pub open spec fn pixel_of(lo: int, mid: int, hi: int) -> u32 {
    (hi * 65536 + mid * 256 + lo) as u32
}

/// A color byte `c` with white laid over it at opacity `a` out of 255.
pub open spec fn over_white(c: int, a: int) -> int {
    (255 * a + c * (255 - a)) / 255
}

/// A pixel with white text laid over it at opacity `a` out of 255.
pub open spec fn blend_white(pixel: u32, a: int) -> u32 {
    pixel_of(over_white(channel(pixel, 0), a), over_white(channel(pixel, 1), a), over_white(channel(pixel, 2), a))
}

proof fn lemma_over_white_bound(c: int, a: int)
    requires
        0 <= c < 256,
        0 <= a <= 255,
    ensures
        0 <= over_white(c, a) < 256,
{
    assert(0 <= 255 * a + c * (255 - a) <= 255 * 255) by (nonlinear_arith)
        requires 0 <= c < 256, 0 <= a <= 255;
}

/// Splits a `0xRRGGBB` color into its red, green and blue bytes.
pub fn color_channels(hex_rgb: u32) -> (rgb: (u32, u32, u32))
    ensures
        rgb.0 == channel(hex_rgb, 2),
        rgb.1 == channel(hex_rgb, 1),
        rgb.2 == channel(hex_rgb, 0),
{
    let r = (hex_rgb >> 16) & 0xFF;
    let g = (hex_rgb >> 8) & 0xFF;
    let b = hex_rgb & 0xFF;
    assert(r == (hex_rgb / 65536) % 256) by (bit_vector)
        requires r == (hex_rgb >> 16) & 0xFF;
    assert(g == (hex_rgb / 256) % 256) by (bit_vector)
        requires g == (hex_rgb >> 8) & 0xFF;
    assert(b == hex_rgb % 256) by (bit_vector)
        requires b == hex_rgb & 0xFF;
    (r, g, b)
}

/// The pixel that shows red `r`, green `g` and blue `b` on the overlay's
/// surface: blue in the high byte, red in the low one.
pub fn pack_pixel(r: u8, g: u8, b: u8) -> (p: u32)
    ensures
        p == pixel_of(r as int, g as int, b as int),
        channel(p, 0) == r,
        channel(p, 1) == g,
        channel(p, 2) == b,
{
    let p = (b as u32) << 16 | (g as u32) << 8 | (r as u32);
    assert(p == (b as u32) * 65536 + (g as u32) * 256 + (r as u32)) by (bit_vector)
        requires p == (b as u32) << 16 | (g as u32) << 8 | (r as u32);
    assert(p / 65536 % 256 == b && p / 256 % 256 == g && p % 256 == r) by (bit_vector)
        requires p == (b as u32) * 65536 + (g as u32) * 256 + (r as u32);
    p
}

/// Lays white text at opacity `a` out of 255 over the pixel at (`px`, `py`)
/// of a frame buffer of `buf_width` by `buf_height` pixels; a point outside
/// the buffer changes nothing.
pub fn blend_text_pixel(buffer: &mut [u32], buf_width: u32, buf_height: u32, px: i32, py: i32, a: u32)
    requires
        a <= 255,
        buf_width as int * buf_height as int <= 0x1_0000_0000,
    ensures
        final(buffer)@.len() == old(buffer)@.len(),
        ({
            let j = py as int * buf_width as int + px as int;
            if 0 <= px < buf_width && 0 <= py < buf_height && j < old(buffer)@.len() {
                final(buffer)@ == old(buffer)@.update(j, blend_white(old(buffer)@[j], a as int))
            } else {
                final(buffer)@ == old(buffer)@
            }
        }),
{
    if px >= 0 && (px as u32) < buf_width && py >= 0 && (py as u32) < buf_height {
        assert((py as int) * (buf_width as int) + (px as int) < buf_width as int * buf_height as int) by (nonlinear_arith)
            requires 0 <= px < buf_width, 0 <= py < buf_height;
        assert((py as int) * (buf_width as int) <= buf_width as int * buf_height as int) by (nonlinear_arith)
            requires 0 <= py < buf_height;
        let idx = (py as u32 * buf_width + px as u32) as usize;
        if idx < buffer.len() {
            let existing = buffer[idx];
            let bg_r = existing & 0xFF;
            let bg_g = (existing >> 8) & 0xFF;
            let bg_b = (existing >> 16) & 0xFF;
            assert(bg_r == existing % 256 && bg_g == (existing / 256) % 256 && bg_b == (existing / 65536) % 256)
                by (bit_vector)
                requires bg_r == existing & 0xFF, bg_g == (existing >> 8) & 0xFF, bg_b == (existing >> 16) & 0xFF;
            let a_inv = 255 - a;
            assert(255 * a + bg_r * a_inv <= 255 * 255) by (nonlinear_arith)
                requires bg_r < 256, a <= 255, a_inv == 255 - a;
            assert(255 * a + bg_g * a_inv <= 255 * 255) by (nonlinear_arith)
                requires bg_g < 256, a <= 255, a_inv == 255 - a;
            assert(255 * a + bg_b * a_inv <= 255 * 255) by (nonlinear_arith)
                requires bg_b < 256, a <= 255, a_inv == 255 - a;
            let r = (255 * a + bg_r * a_inv) / 255;
            let g = (255 * a + bg_g * a_inv) / 255;
            let b = (255 * a + bg_b * a_inv) / 255;
            proof {
                lemma_over_white_bound(bg_r as int, a as int);
                lemma_over_white_bound(bg_g as int, a as int);
                lemma_over_white_bound(bg_b as int, a as int);
            }
            let p = (b << 16) | (g << 8) | r;
            assert(p == b * 65536 + g * 256 + r) by (bit_vector)
                requires p == (b << 16) | (g << 8) | r, r < 256, g < 256, b < 256;
            buffer[idx] = p;
        }
    }
}

} // verus!
