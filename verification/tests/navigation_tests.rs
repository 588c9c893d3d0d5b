use altctrl::grid::ScreenPoint;
use altctrl::keys::{Key, MouseButton, Side};
use altctrl::listener::OverlayCommand;
use altctrl::navigation::{
    click_modifier, to_ascii_upper, NavState, OverlayAction, OverlayKey, OverlayApp, WindowInput, WindowPlan,
};

fn ready(w: u32, h: u32) -> OverlayApp {
    let mut s = OverlayApp::new();
    s.set_grid_size(w as u64, h as u64);
    s.ready_for_input = true;
    s
}

fn pt(x: u64, y: u64) -> ScreenPoint {
    ScreenPoint { x_sixtieths: x, y_sixtieths: y }
}

#[test]
fn new_overlay_is_closed() {
    let s = OverlayApp::new();
    assert_eq!(s.nav_state, NavState::WaitingForColumn);
    assert!(!s.ready_for_input);
    assert_eq!((s.grid_width, s.grid_height), (1920, 1080));
}

#[test]
fn column_then_row_moves_to_cell_center() {
    let mut s = ready(1920, 1080);
    // D: column 2, its middle is row G (14).
    assert_eq!(s.handle_key_press(OverlayKey::Character('D')), OverlayAction::MoveMouse(pt(480 * 60, 522 * 60)));
    assert_eq!(s.nav_state, NavState::ColumnSelected(Key::KeyD));
    // W: row 1.
    assert_eq!(s.handle_key_press(OverlayKey::Character('W')), OverlayAction::MoveMouse(pt(480 * 60, 54 * 60)));
    assert_eq!(s.nav_state, NavState::CellSelected(Key::KeyD, Key::KeyW));
}

#[test]
fn top_left_and_bottom_right_cells() {
    let mut s = ready(1920, 1080);
    s.handle_key_press(OverlayKey::Character('A'));
    assert_eq!(s.handle_key_press(OverlayKey::Character('Q')), OverlayAction::MoveMouse(pt(96 * 60, 18 * 60)));
    let mut s = ready(1920, 1080);
    s.handle_key_press(OverlayKey::Character(';'));
    assert_eq!(s.handle_key_press(OverlayKey::Character('/')), OverlayAction::MoveMouse(pt(1824 * 60, 1062 * 60)));
}

#[test]
fn lower_case_keys_navigate() {
    let mut s = ready(1920, 1080);
    assert_eq!(s.handle_key_press(OverlayKey::Character('d')), OverlayAction::MoveMouse(pt(480 * 60, 522 * 60)));
    assert_eq!(s.handle_key_press(OverlayKey::Character('w')), OverlayAction::MoveMouse(pt(480 * 60, 54 * 60)));
}

#[test]
fn third_key_picks_side() {
    let mut s = ready(1920, 1080);
    s.handle_key_press(OverlayKey::Character('S'));
    s.handle_key_press(OverlayKey::Character('E'));
    assert_eq!(s.handle_key_press(OverlayKey::Character('F')), OverlayAction::MoveMouse(pt((192 + 32) * 60, 90 * 60)));
    assert_eq!(s.nav_state, NavState::ThirdSelected(Key::KeyS, Key::KeyE, Side::Left));
    let mut s = ready(1920, 1080);
    s.handle_key_press(OverlayKey::Character('S'));
    s.handle_key_press(OverlayKey::Character('E'));
    assert_eq!(s.handle_key_press(OverlayKey::Character('J')), OverlayAction::MoveMouse(pt((192 + 160) * 60, 90 * 60)));
    assert_eq!(s.nav_state, NavState::ThirdSelected(Key::KeyS, Key::KeyE, Side::Right));
}

#[test]
fn key_after_third_closes() {
    let mut s = ready(1920, 1080);
    s.handle_key_press(OverlayKey::Character('S'));
    s.handle_key_press(OverlayKey::Character('E'));
    s.handle_key_press(OverlayKey::Character('J'));
    assert_eq!(s.handle_key_press(OverlayKey::Character('A')), OverlayAction::Close);
    assert_eq!(s.nav_state, NavState::WaitingForColumn);
    assert!(!s.ready_for_input);
}

#[test]
fn non_column_first_key_closes() {
    let mut s = ready(1920, 1080);
    assert_eq!(s.handle_key_press(OverlayKey::Character('Q')), OverlayAction::Close);
    assert_eq!(s.nav_state, NavState::WaitingForColumn);
    assert!(!s.ready_for_input);
}

#[test]
fn unknown_key_closes() {
    let mut s = ready(1920, 1080);
    s.handle_key_press(OverlayKey::Character('A'));
    assert_eq!(s.handle_key_press(OverlayKey::Character('1')), OverlayAction::Close);
    assert_eq!(s.nav_state, NavState::WaitingForColumn);
}

#[test]
fn escape_closes_in_every_state() {
    let mut s = ready(1920, 1080);
    s.handle_key_press(OverlayKey::Character('A'));
    assert_eq!(s.handle_key_press(OverlayKey::Escape), OverlayAction::Close);
    assert_eq!(s.nav_state, NavState::WaitingForColumn);
    assert!(!s.ready_for_input);
    // Not yet painted: Escape still closes.
    assert_eq!(s.handle_key_press(OverlayKey::Escape), OverlayAction::Close);
}

#[test]
fn keys_wait_for_the_grid() {
    let mut s = OverlayApp::new();
    s.set_grid_size(1920, 1080);
    assert_eq!(s.handle_key_press(OverlayKey::Character('A')), OverlayAction::Nothing);
    assert_eq!(s.handle_key_press(OverlayKey::Control), OverlayAction::Nothing);
    assert_eq!(s.nav_state, NavState::WaitingForColumn);
}

#[test]
fn modifiers_click_and_close() {
    let mut s = ready(1920, 1080);
    s.handle_key_press(OverlayKey::Character('A'));
    assert_eq!(s.handle_key_press(OverlayKey::Control), OverlayAction::ClickAndClose(MouseButton::Left));
    assert_eq!(s.nav_state, NavState::WaitingForColumn);
    assert!(!s.ready_for_input);
    let mut s = ready(1920, 1080);
    assert_eq!(s.handle_key_press(OverlayKey::Alt), OverlayAction::ClickAndClose(MouseButton::Right));
    assert_eq!(click_modifier(MouseButton::Left), Key::ControlLeft);
    assert_eq!(click_modifier(MouseButton::Right), Key::Alt);
}

#[test]
fn space_does_nothing() {
    let mut s = ready(1920, 1080);
    s.handle_key_press(OverlayKey::Character('A'));
    s.handle_key_press(OverlayKey::Character('Q'));
    assert_eq!(s.handle_key_press(OverlayKey::Space), OverlayAction::Nothing);
    assert_eq!(s.nav_state, NavState::CellSelected(Key::KeyA, Key::KeyQ));
    assert!(s.ready_for_input);
}

#[test]
fn other_keys_close() {
    let mut s = ready(1920, 1080);
    s.handle_key_press(OverlayKey::Character('A'));
    assert_eq!(s.handle_key_press(OverlayKey::Other), OverlayAction::Close);
    assert_eq!(s.nav_state, NavState::WaitingForColumn);
    assert!(!s.ready_for_input);
    // Before the grid is painted, they are ignored.
    assert_eq!(s.handle_key_press(OverlayKey::Other), OverlayAction::Nothing);
}

#[test]
fn ascii_upper_case() {
    assert_eq!(to_ascii_upper('a'), 'A');
    assert_eq!(to_ascii_upper('z'), 'Z');
    assert_eq!(to_ascii_upper('A'), 'A');
    assert_eq!(to_ascii_upper(';'), ';');
    assert_eq!(to_ascii_upper('é'), 'é');
}

#[test]
fn window_events_dispatch() {
    let mut s = ready(1920, 1080);
    assert_eq!(s.window_event(WindowInput::RedrawRequested), OverlayAction::Render);
    assert_eq!(s.window_event(WindowInput::Other), OverlayAction::Nothing);
    assert_eq!(s.window_event(WindowInput::KeyPressed(OverlayKey::Character('A'))), OverlayAction::MoveMouse(pt(96 * 60, 522 * 60)));
    assert_eq!(s.window_event(WindowInput::CloseRequested), OverlayAction::Close);
    assert_eq!(s.nav_state, NavState::WaitingForColumn);
    assert!(!s.ready_for_input);
}

#[test]
fn commands_open_and_close_the_window() {
    let s = OverlayApp::new();
    assert_eq!(s.plan_command(OverlayCommand::Show, false), WindowPlan::Open);
    assert_eq!(s.plan_command(OverlayCommand::Show, true), WindowPlan::Keep);
    assert_eq!(s.plan_command(OverlayCommand::Hide, true), WindowPlan::Close);
    assert_eq!(s.plan_command(OverlayCommand::Hide, false), WindowPlan::Close);
}

#[test]
fn grid_size_truncates_to_32_bits() {
    let mut s = OverlayApp::new();
    s.set_grid_size((1u64 << 32) + 5, 1080);
    assert_eq!((s.grid_width, s.grid_height), (5, 1080));
}

#[test]
fn cell_center_lookups() {
    let s = ready(1920, 1080);
    assert_eq!(s.get_cell_center(Key::KeyA, Key::KeyQ), Some(pt(96 * 60, 18 * 60)));
    assert_eq!(s.get_cell_center(Key::KeyQ, Key::KeyQ), None);
    assert_eq!(s.get_third_center(Key::KeyA, Key::KeyQ, Side::Right), Some(pt(160 * 60, 18 * 60)));
    assert_eq!(s.get_third_center(Key::KeyA, Key::Space, Side::Right), None);
}
