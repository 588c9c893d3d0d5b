use altctrl::grid::{cell_center, third_center, GridEngine, ScreenPoint};
use altctrl::keys::{Key, Side};

fn pt(x: u64, y: u64) -> ScreenPoint {
    ScreenPoint { x_sixtieths: x, y_sixtieths: y }
}

#[test]
fn cell_centers_on_full_hd() {
    // Cells are 192 by 36 pixels; the first center is at (96, 18).
    assert_eq!(cell_center(0, 0, 1920, 1080), pt(96 * 60, 18 * 60));
    assert_eq!(cell_center(9, 29, 1920, 1080), pt((1728 + 96) * 60, (1044 + 18) * 60));
    assert_eq!(cell_center(2, 1, 1920, 1080), pt(480 * 60, 54 * 60));
}

#[test]
fn cell_centers_keep_fractions() {
    // 1366 / 20 = 68.3 pixels: exact in sixtieths.
    assert_eq!(cell_center(0, 0, 1366, 768), pt(3 * 1366, 768));
}

#[test]
fn third_centers() {
    // Left third center: 192 / 6 = 32 pixels into the cell; right: 160.
    assert_eq!(third_center(1, 0, Side::Left, 1920, 1080), pt((192 + 32) * 60, 18 * 60));
    assert_eq!(third_center(1, 0, Side::Right, 1920, 1080), pt((192 + 160) * 60, 18 * 60));
}

#[test]
fn grid_engine_coords() {
    let g = GridEngine::new(1920, 1080);
    assert_eq!(g.screen_w, 1920);
    assert_eq!(g.screen_h, 1080);
    assert_eq!(g.get_coords(Key::KeyA, Key::KeyQ), Some(pt(96 * 60, 18 * 60)));
    assert_eq!(g.get_coords(Key::SemiColon, Key::Slash), Some(pt(1824 * 60, 1062 * 60)));
    assert_eq!(g.get_coords(Key::KeyQ, Key::KeyQ), None);
    assert_eq!(g.get_coords(Key::KeyA, Key::Space), None);
}

#[test]
fn zero_sized_screen_puts_everything_at_origin() {
    let g = GridEngine::new(0, 0);
    assert_eq!(g.get_coords(Key::KeyL, Key::KeyM), Some(pt(0, 0)));
}
