use vstd::prelude::*;

use crate::grid::{cell_center, cell_lookup, third_center, third_lookup, ScreenPoint};
use crate::key_index::{col_map, row_map};
use crate::listener::OverlayCommand;
use crate::keys::{char_to_key, col_position, is_column_key, key_label, key_side, row_position, Key, MouseButton, Side};

verus! {

/// `c` in upper case when it is an ASCII letter, `c` itself otherwise.
pub open spec fn ascii_upper(c: char) -> char {
    if 97 <= (c as u32) && (c as u32) <= 122 {
        ((c as u32) - 32) as char
    } else {
        c
    }
}

/// `c` in upper case when it is an ASCII letter, `c` itself otherwise, as
/// `char::to_ascii_uppercase` does.
pub fn to_ascii_upper(c: char) -> (r: char)
    ensures
        r == ascii_upper(c),
{
    if 'a' <= c && c <= 'z' {
        ((c as u32 - 32) as u8) as char
    } else {
        c
    }
}

/// The grid key that carries a character, if any.
pub open spec fn key_for_char(c: char) -> Option<Key> {
    if exists|k: Key| key_label(k) == Some(c) {
        Some(choose|k: Key| key_label(k) == Some(c))
    } else {
        None
    }
}

/// Where the two-key navigation stands.
#[derive(PartialEq, Eq, Structural, Clone, Copy, Debug)]
pub enum NavState {
    WaitingForColumn,
    ColumnSelected(Key),
    CellSelected(Key, Key),
    ThirdSelected(Key, Key, Side),
}

/// A key pressed while the overlay window has the focus.
#[derive(PartialEq, Eq, Structural, Clone, Copy, Debug)]
pub enum OverlayKey {
    Escape,
    Control,
    Alt,
    /// The space bar: it leaves the pointer where it is.
    Space,
    /// A key that types text, by the first character of that text.
    Character(char),
    /// Any other key: it closes the overlay.
    Other,
}

/// Something that happens to the overlay window.
#[derive(PartialEq, Eq, Structural, Clone, Copy, Debug)]
pub enum WindowInput {
    CloseRequested,
    KeyPressed(OverlayKey),
    RedrawRequested,
    Other,
}

/// What the overlay asks of the outside world after a step.
#[derive(PartialEq, Eq, Structural, Clone, Copy, Debug)]
pub enum OverlayAction {
    Nothing,
    /// Move the mouse pointer to this point.
    MoveMouse(ScreenPoint),
    /// Close the overlay and go back to watching for the activation chord.
    Close,
    /// Close the overlay, then click this button where the pointer is.
    ClickAndClose(MouseButton),
    /// Paint the grid into the window.
    Render,
}

/// What to do with the overlay window on a command from the key listener.
#[derive(PartialEq, Eq, Structural, Clone, Copy, Debug)]
pub enum WindowPlan {
    /// Create the window and size the grid to the display.
    Open,
    /// Drop the window.
    Close,
    /// Leave things as they are.
    Keep,
}

/// The state of the overlay window that its decisions read.
#[derive(PartialEq, Eq, Structural, Clone, Copy, Debug)]
pub struct OverlayApp {
    pub nav_state: NavState,
    /// Set once the grid has been painted; keys are ignored until then.
    pub ready_for_input: bool,
    pub grid_width: u32,
    pub grid_height: u32,
}

/// The state after the overlay closes: navigation starts over and input
/// waits for the next painted grid.
pub open spec fn closed(s: OverlayApp) -> OverlayApp {
    OverlayApp { nav_state: NavState::WaitingForColumn, ready_for_input: false, ..s }
}

/// The pointer move to a point if there is one, no action otherwise.
pub open spec fn move_to(p: Option<ScreenPoint>) -> OverlayAction {
    match p {
        Some(q) => OverlayAction::MoveMouse(q),
        None => OverlayAction::Nothing,
    }
}

/// One navigation step on a typed key (`None`: a character off the grid).
///
/// A column key first moves the pointer to the middle of its column (row G);
/// a row key then moves it to the center of the cell; a key from either half
/// of the keyboard then moves it to the center of that third of the cell.
/// Anything else closes the overlay.
pub open spec fn nav_step(s: OverlayApp, key: Option<Key>) -> (OverlayApp, OverlayAction) {
    let w = s.grid_width as int;
    let h = s.grid_height as int;
    match key {
        None => (closed(s), OverlayAction::Close),
        Some(k) => match s.nav_state {
            NavState::WaitingForColumn => if col_position(k) is Some {
                (
                    OverlayApp { nav_state: NavState::ColumnSelected(k), ..s },
                    move_to(cell_lookup(k, Key::KeyG, w, h)),
                )
            } else {
                (closed(s), OverlayAction::Close)
            },
            NavState::ColumnSelected(col) => (
                OverlayApp { nav_state: NavState::CellSelected(col, k), ..s },
                move_to(cell_lookup(col, k, w, h)),
            ),
            NavState::CellSelected(col, row) => match row_position(k) {
                Some(i) => {
                    let side = if i % 10 < 5 { Side::Left } else { Side::Right };
                    (
                        OverlayApp { nav_state: NavState::ThirdSelected(col, row, side), ..s },
                        move_to(third_lookup(col, row, side, w, h)),
                    )
                },
                None => (closed(s), OverlayAction::Close),
            },
            NavState::ThirdSelected(_, _, _) => (closed(s), OverlayAction::Close),
        },
    }
}

/// One step on a key pressed in the overlay window.
///
/// Until the grid is painted only Escape counts, and it closes the overlay.
/// Then Escape closes it, Control clicks the left button and Alt the right
/// one (both close it), a typed character, in upper case, navigates, Space
/// leaves everything as it is, and any other key closes the overlay.
pub open spec fn key_press_step(s: OverlayApp, key: OverlayKey) -> (OverlayApp, OverlayAction) {
    if !s.ready_for_input {
        if key == OverlayKey::Escape {
            (closed(s), OverlayAction::Close)
        } else {
            (s, OverlayAction::Nothing)
        }
    } else {
        match key {
            OverlayKey::Escape => (closed(s), OverlayAction::Close),
            OverlayKey::Control => (closed(s), OverlayAction::ClickAndClose(MouseButton::Left)),
            OverlayKey::Alt => (closed(s), OverlayAction::ClickAndClose(MouseButton::Right)),
            OverlayKey::Character(c) => nav_step(s, key_for_char(ascii_upper(c))),
            OverlayKey::Space => (s, OverlayAction::Nothing),
            OverlayKey::Other => (closed(s), OverlayAction::Close),
        }
    }
}

/// The modifier key that a click releases first, so that the system sees a
/// plain click: left Control for the left button, Alt for the right one.
pub fn click_modifier(button: MouseButton) -> (k: Key)
    ensures
        k == (match button {
            MouseButton::Left => Key::ControlLeft,
            MouseButton::Right => Key::Alt,
        }),
{
    if button == MouseButton::Left {
        Key::ControlLeft
    } else {
        Key::Alt
    }
}

impl OverlayApp {
    /// A closed overlay whose grid, until the display is measured, covers
    /// 1920 by 1080 pixels.
    pub fn new() -> (s: OverlayApp)
        ensures
            s.nav_state == NavState::WaitingForColumn,
            !s.ready_for_input,
            s.grid_width == 1920,
            s.grid_height == 1080,
    {
        OverlayApp { nav_state: NavState::WaitingForColumn, ready_for_input: false, grid_width: 1920, grid_height: 1080 }
    }

    /// Navigation starts over and input waits for the next painted grid.
    pub fn cleanup(&mut self)
        ensures
            *final(self) == closed(*old(self)),
    {
        self.nav_state = NavState::WaitingForColumn;
        self.ready_for_input = false;
    }

    /// The center of the cell of a column key and a row key on this grid.
    pub fn get_cell_center(&self, col_key: Key, row_key: Key) -> (r: Option<ScreenPoint>)
        ensures
            r == cell_lookup(col_key, row_key, self.grid_width as int, self.grid_height as int),
    {
        let cols = col_map();
        let rows = row_map();
        let col_idx = match cols.get(col_key) {
            Some(i) => i,
            None => return None,
        };
        let row_idx = match rows.get(row_key) {
            Some(i) => i,
            None => return None,
        };
        Some(cell_center(col_idx, row_idx, self.grid_width, self.grid_height))
    }

    /// The center of the left or the right third of the cell of a column key
    /// and a row key on this grid.
    pub fn get_third_center(&self, col_key: Key, row_key: Key, side: Side) -> (r: Option<ScreenPoint>)
        ensures
            r == third_lookup(col_key, row_key, side, self.grid_width as int, self.grid_height as int),
    {
        let cols = col_map();
        let rows = row_map();
        let col_idx = match cols.get(col_key) {
            Some(i) => i,
            None => return None,
        };
        let row_idx = match rows.get(row_key) {
            Some(i) => i,
            None => return None,
        };
        Some(third_center(col_idx, row_idx, side, self.grid_width, self.grid_height))
    }

    /// One navigation step on a typed upper-case character.
    pub fn process_nav_key(&mut self, ch: char) -> (r: OverlayAction)
        ensures
            (*final(self), r) == nav_step(*old(self), key_for_char(ch)),
    {
        let key = match char_to_key(ch) {
            Some(k) => k,
            None => {
                self.cleanup();
                return OverlayAction::Close;
            },
        };
        proof {
            assert(key_label(key) == Some(ch));
            assert(key_for_char(ch) == Some(key));
        }
        match self.nav_state {
            NavState::WaitingForColumn => {
                if !is_column_key(key) {
                    self.cleanup();
                    return OverlayAction::Close;
                }
                let action = match self.get_cell_center(key, Key::KeyG) {
                    Some(p) => OverlayAction::MoveMouse(p),
                    None => OverlayAction::Nothing,
                };
                self.nav_state = NavState::ColumnSelected(key);
                action
            },
            NavState::ColumnSelected(col_key) => {
                let action = match self.get_cell_center(col_key, key) {
                    Some(p) => OverlayAction::MoveMouse(p),
                    None => OverlayAction::Nothing,
                };
                self.nav_state = NavState::CellSelected(col_key, key);
                action
            },
            NavState::CellSelected(col_key, row_key) => {
                match key_side(key) {
                    Some(side) => {
                        let action = match self.get_third_center(col_key, row_key, side) {
                            Some(p) => OverlayAction::MoveMouse(p),
                            None => OverlayAction::Nothing,
                        };
                        self.nav_state = NavState::ThirdSelected(col_key, row_key, side);
                        action
                    },
                    None => {
                        self.cleanup();
                        OverlayAction::Close
                    },
                }
            },
            NavState::ThirdSelected(_, _, _) => {
                self.cleanup();
                OverlayAction::Close
            },
        }
    }

    /// Closes the overlay and asks for a click of `button`.
    pub fn perform_click_and_close(&mut self, button: MouseButton) -> (r: OverlayAction)
        ensures
            *final(self) == closed(*old(self)),
            r == OverlayAction::ClickAndClose(button),
    {
        self.cleanup();
        OverlayAction::ClickAndClose(button)
    }

    /// One step on a key pressed in the overlay window.
    pub fn handle_key_press(&mut self, key: OverlayKey) -> (r: OverlayAction)
        ensures
            (*final(self), r) == key_press_step(*old(self), key),
    {
        if !self.ready_for_input {
            if key == OverlayKey::Escape {
                self.cleanup();
                return OverlayAction::Close;
            }
            return OverlayAction::Nothing;
        }
        match key {
            OverlayKey::Escape => {
                self.cleanup();
                OverlayAction::Close
            },
            OverlayKey::Control => self.perform_click_and_close(MouseButton::Left),
            OverlayKey::Alt => self.perform_click_and_close(MouseButton::Right),
            OverlayKey::Character(c) => self.process_nav_key(to_ascii_upper(c)),
            OverlayKey::Space => OverlayAction::Nothing,
            OverlayKey::Other => {
                self.cleanup();
                OverlayAction::Close
            },
        }
    }

    /// One step on something that happens to the overlay window: a close
    /// request closes the overlay, a key press is handled, a redraw request
    /// asks for the grid to be painted.
    pub fn window_event(&mut self, event: WindowInput) -> (r: OverlayAction)
        ensures
            (*final(self), r) == match event {
                WindowInput::CloseRequested => (closed(*old(self)), OverlayAction::Close),
                WindowInput::KeyPressed(k) => key_press_step(*old(self), k),
                WindowInput::RedrawRequested => (*old(self), OverlayAction::Render),
                WindowInput::Other => (*old(self), OverlayAction::Nothing),
            },
    {
        match event {
            WindowInput::CloseRequested => {
                self.cleanup();
                OverlayAction::Close
            },
            WindowInput::KeyPressed(k) => self.handle_key_press(k),
            WindowInput::RedrawRequested => OverlayAction::Render,
            WindowInput::Other => OverlayAction::Nothing,
        }
    }

    /// What a command from the key listener does: `Show` opens the window
    /// unless it is already open, `Hide` closes it.
    pub fn plan_command(&self, cmd: OverlayCommand, window_open: bool) -> (p: WindowPlan)
        ensures
            p == match cmd {
                OverlayCommand::Show => if window_open { WindowPlan::Keep } else { WindowPlan::Open },
                OverlayCommand::Hide => WindowPlan::Close,
            },
    {
        match cmd {
            OverlayCommand::Show => {
                if window_open {
                    WindowPlan::Keep
                } else {
                    WindowPlan::Open
                }
            },
            OverlayCommand::Hide => WindowPlan::Close,
        }
    }

    /// Sizes the grid to a display of `display_w` by `display_h` logical
    /// pixels, each truncated to 32 bits.
    pub fn set_grid_size(&mut self, display_w: u64, display_h: u64)
        ensures
            *final(self) == (OverlayApp {
                grid_width: (display_w % 0x1_0000_0000) as u32,
                grid_height: (display_h % 0x1_0000_0000) as u32,
                ..*old(self)
            }),
    {
        let w = display_w as u32;
        let h = display_h as u32;
        assert(w == display_w % 0x1_0000_0000) by (bit_vector)
            requires w == display_w as u32;
        assert(h == display_h % 0x1_0000_0000) by (bit_vector)
            requires h == display_h as u32;
        self.grid_width = w;
        self.grid_height = h;
    }
}

} // verus!
