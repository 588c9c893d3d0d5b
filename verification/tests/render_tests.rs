use altctrl::navigation::OverlayApp;
use altctrl::render::{blend_text_pixel, cell_labels, color_channels, grid_pixel_value, pack_pixel, paint_grid, WHITE};

const PALETTE: [u32; 5] = [0x10, 0x20, 0x30, 0x40, 0x50];

fn px(buf: &[u32], w: usize, x: usize, y: usize) -> u32 {
    buf[y * w + x]
}

#[test]
fn grid_paints_lines_and_columns() {
    // Cells of 10 by 2 pixels.
    let mut buf = vec![0xdead_beefu32; 100 * 60 + 7];
    paint_grid(&mut buf, 100, 60, 100, 60, &PALETTE);
    assert_eq!(px(&buf, 100, 0, 0), WHITE);
    assert_eq!(px(&buf, 100, 5, 2), WHITE); // horizontal line
    assert_eq!(px(&buf, 100, 1, 1), WHITE); // vertical line, two pixels wide
    assert_eq!(px(&buf, 100, 11, 1), WHITE);
    assert_eq!(px(&buf, 100, 2, 1), 0x10); // column 0
    assert_eq!(px(&buf, 100, 35, 3), 0x40); // column 3
    assert_eq!(px(&buf, 100, 45, 3), 0x50); // column 4
    assert_eq!(px(&buf, 100, 55, 3), 0x50); // column 5: symmetric
    assert_eq!(px(&buf, 100, 95, 59), 0x10); // column 9
    assert_eq!(px(&buf, 100, 99, 59), 0x10);
    // Past the last row, entries are cleared.
    assert_eq!(buf[100 * 60], 0);
    assert_eq!(buf[100 * 60 + 6], 0);
}

#[test]
fn grid_right_of_last_column_is_transparent() {
    // A 105 pixel wide buffer over a 100 pixel grid: the line at x = 100, 101
    // is white, the rest beyond is transparent.
    let mut buf = vec![7u32; 105 * 4];
    paint_grid(&mut buf, 105, 4, 100, 60, &PALETTE);
    assert_eq!(px(&buf, 105, 100, 1), WHITE);
    assert_eq!(px(&buf, 105, 101, 1), WHITE);
    assert_eq!(px(&buf, 105, 102, 1), 0);
    assert_eq!(px(&buf, 105, 104, 3), 0);
}

#[test]
fn tiny_grid_has_lines_at_origin() {
    // Cell width 0: only columns 0 and 1 of pixels are white, row 0 too.
    assert_eq!(grid_pixel_value(1, 5, 0, 0, &PALETTE), WHITE);
    assert_eq!(grid_pixel_value(2, 5, 0, 0, &PALETTE), 0);
    assert_eq!(grid_pixel_value(7, 0, 0, 0, &PALETTE), WHITE);
    // Cell width 1: lines cover x = 0..=11.
    assert_eq!(grid_pixel_value(11, 5, 1, 3, &PALETTE), WHITE);
    assert_eq!(grid_pixel_value(12, 5, 1, 3, &PALETTE), 0);
}

#[test]
fn zero_width_buffer_is_cleared() {
    let mut buf = vec![9u32; 4];
    paint_grid(&mut buf, 0, 10, 100, 60, &PALETTE);
    assert_eq!(buf, vec![0, 0, 0, 0]);
}

#[test]
fn render_needs_a_grid() {
    let mut s = OverlayApp::new();
    s.set_grid_size(0, 1080);
    let mut buf = vec![5u32; 16];
    assert!(!s.render_grid(&mut buf, 4, 4, &PALETTE));
    assert_eq!(buf, vec![5u32; 16]);
    assert!(!s.ready_for_input);
    s.set_grid_size(100, 60);
    assert!(s.has_grid());
    assert!(s.render_grid(&mut buf, 4, 4, &PALETTE));
    assert!(s.ready_for_input);
    assert_eq!(buf[0], WHITE);
    assert_eq!(buf[4 + 2], 0x10);
}

#[test]
fn labels_cover_every_cell() {
    let labels = cell_labels(1920, 1080);
    assert_eq!(labels.len(), 300);
    assert_eq!((labels[0].col_char, labels[0].row_char, labels[0].cell_x, labels[0].cell_y), ('A', 'Q', 0, 0));
    assert_eq!((labels[31].col_char, labels[31].row_char, labels[31].cell_x, labels[31].cell_y), ('S', 'W', 192, 36));
    assert_eq!((labels[44].col_char, labels[44].row_char, labels[44].cell_x, labels[44].cell_y), ('S', 'G', 192, 504));
    assert_eq!((labels[299].col_char, labels[299].row_char, labels[299].cell_x, labels[299].cell_y), (';', '/', 1728, 1044));
}

#[test]
fn text_pixels_blend_white() {
    let mut buf = vec![0u32, 0x0012_3456, 0xFF00_0000, 0x0000_0000];
    blend_text_pixel(&mut buf, 2, 2, 0, 0, 255);
    assert_eq!(buf[0], 0x00FF_FFFF);
    blend_text_pixel(&mut buf, 2, 2, 1, 0, 0);
    assert_eq!(buf[1], 0x0012_3456);
    // The top byte is dropped.
    blend_text_pixel(&mut buf, 2, 2, 0, 1, 0);
    assert_eq!(buf[2], 0);
    // Half opacity over black: 255 * 128 / 255 = 128 per channel.
    blend_text_pixel(&mut buf, 2, 2, 1, 1, 128);
    assert_eq!(buf[3], 0x0080_8080);
}

#[test]
fn text_pixels_outside_are_ignored() {
    let mut buf = vec![1u32, 2, 3, 4];
    blend_text_pixel(&mut buf, 2, 2, -1, 0, 255);
    blend_text_pixel(&mut buf, 2, 2, 2, 0, 255);
    blend_text_pixel(&mut buf, 2, 2, 0, 2, 255);
    blend_text_pixel(&mut buf, 2, 2, 0, -5, 255);
    assert_eq!(buf, vec![1, 2, 3, 4]);
    // Inside the declared size but past the buffer's end: ignored.
    let mut short = vec![1u32, 2, 3];
    blend_text_pixel(&mut short, 2, 2, 1, 1, 255);
    assert_eq!(short, vec![1, 2, 3]);
}

#[test]
fn colors_split_and_pack() {
    assert_eq!(color_channels(0xf86565), (0xf8, 0x65, 0x65));
    assert_eq!(color_channels(0xff12_3456), (0x12, 0x34, 0x56));
    // Blue goes to the high byte, red to the low one.
    assert_eq!(pack_pixel(0x01, 0x02, 0x03), 0x0003_0201);
}
