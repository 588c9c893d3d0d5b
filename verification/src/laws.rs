use vstd::prelude::*;

use crate::grid::{cell_point, center_x, center_y, third_point, third_x};
use crate::keys::{col_keys, col_position, key_label, row_keys, row_position, Key, Side};
use crate::render::{
    column_color_index, grid_frame_pixel, grid_pixel, label_at, CellLabel, WHITE, lemma_horizontal_line, lemma_key_chars, lemma_vertical_line,
};
use vstd::arithmetic::div_mod::lemma_fundamental_div_mod_converse;
use crate::listener::{dedup_seq, lemma_dedup_last, listener_step, AppMode, InputEvent, OverlayCommand};
use crate::navigation::{
    ascii_upper, closed, key_for_char, key_press_step, NavState, OverlayAction, OverlayKey, OverlayApp,
};

verus! {

// ---------------------------------------------------------------------------
// The key listener
// ---------------------------------------------------------------------------

/// Pressing left Control right after Alt opens the overlay, whatever was
/// pressed before: the listener starts navigating with no keys remembered and
/// asks for the overlay.
pub proof fn law_chord_opens_overlay(history: Seq<Key>, current: Set<Key>)
    requires
        history.len() > 0,
        history.last() == Key::Alt,
    ensures
        listener_step(history, current, AppMode::Monitoring, InputEvent::KeyPress(Key::ControlLeft)) == (
            Seq::<Key>::empty(),
            Set::<Key>::empty(),
            AppMode::Navigating,
            Some(OverlayCommand::Show),
        ),
{
    let pushed = history.push(Key::ControlLeft);
    assert(pushed.drop_last() =~= history);
    lemma_dedup_last(history);
    let h = dedup_seq(pushed);
    assert(h == dedup_seq(history).push(Key::ControlLeft));
}

/// Only a press of left Control while monitoring opens the overlay.
pub proof fn law_only_control_opens_overlay(history: Seq<Key>, current: Set<Key>, mode: AppMode, event: InputEvent)
    ensures
        listener_step(history, current, mode, event).3 is Some ==> {
            &&& mode == AppMode::Monitoring
            &&& event == InputEvent::KeyPress(Key::ControlLeft)
            &&& listener_step(history, current, mode, event).3 == Some(OverlayCommand::Show)
        },
{
    if let InputEvent::KeyPress(k) = event {
        lemma_dedup_last(history.push(k));
    }
}

/// While the overlay navigates, the key listener ignores every event.
pub proof fn law_navigating_ignores_events(history: Seq<Key>, current: Set<Key>, event: InputEvent)
    ensures
        listener_step(history, current, AppMode::Navigating, event) == (history, current, AppMode::Navigating, None::<OverlayCommand>),
{
}

/// Releasing a key forgets the key history, so the chord must be pressed
/// without releasing a key between Alt and left Control.
pub proof fn law_release_forgets_history(history: Seq<Key>, current: Set<Key>, k: Key)
    ensures
        listener_step(history, current, AppMode::Monitoring, InputEvent::KeyRelease(k)).0 == Seq::<Key>::empty(),
        listener_step(history, current, AppMode::Monitoring, InputEvent::KeyRelease(k)).3 is None,
{
}

/// A deduplicated key history never holds the same key twice in a row.
pub proof fn law_dedup_has_no_repeats(s: Seq<Key>)
    ensures
        forall|i: int| 0 < i < dedup_seq(s).len() ==> #[trigger] dedup_seq(s)[i] != dedup_seq(s)[i - 1],
    decreases s.len(),
{
    if s.len() > 1 {
        law_dedup_has_no_repeats(s.drop_last());
        lemma_dedup_last(s.drop_last());
    }
}

// ---------------------------------------------------------------------------
// Navigation
// ---------------------------------------------------------------------------

/// Each grid key carries its own character.
pub proof fn lemma_key_label_injective(k1: Key, k2: Key)
    ensures
        key_label(k1) is Some && key_label(k1) == key_label(k2) ==> k1 == k2,
{
}

/// Typing the character of a grid key selects that key.
pub proof fn lemma_key_for_label(k: Key)
    requires
        key_label(k) is Some,
    ensures
        key_for_char(key_label(k).unwrap()) == Some(k),
        ascii_upper(key_label(k).unwrap()) == key_label(k).unwrap(),
{
    let c = key_label(k).unwrap();
    assert(key_label(k) == Some(c));
    let k2 = choose|k2: Key| key_label(k2) == Some(c);
    lemma_key_label_injective(k, k2);
}

/// Escape closes the overlay at once, in every state.
pub proof fn law_escape_closes(s: OverlayApp)
    ensures
        key_press_step(s, OverlayKey::Escape) == (closed(s), OverlayAction::Close),
{
}

/// Until the grid is painted, every key but Escape is ignored.
pub proof fn law_keys_wait_for_grid(s: OverlayApp, key: OverlayKey)
    requires
        !s.ready_for_input,
        key != OverlayKey::Escape,
    ensures
        key_press_step(s, key) == (s, OverlayAction::Nothing),
{
}

/// Space leaves the overlay as it is.
pub proof fn law_space_keeps_state(s: OverlayApp)
    ensures
        key_press_step(s, OverlayKey::Space) == (s, OverlayAction::Nothing),
{
}

/// Once the grid is painted, a key that is neither Escape, Control, Alt,
/// Space nor a typed character closes the overlay.
pub proof fn law_other_keys_close(s: OverlayApp)
    requires
        s.ready_for_input,
    ensures
        key_press_step(s, OverlayKey::Other) == (closed(s), OverlayAction::Close),
{
}

/// Left Control clicks the left button and Alt the right one, and either
/// closes the overlay.
pub proof fn law_modifiers_click(s: OverlayApp)
    requires
        s.ready_for_input,
    ensures
        key_press_step(s, OverlayKey::Control) == (closed(s), OverlayAction::ClickAndClose(crate::keys::MouseButton::Left)),
        key_press_step(s, OverlayKey::Alt) == (closed(s), OverlayAction::ClickAndClose(crate::keys::MouseButton::Right)),
{
}

/// A column key and then a row key move the pointer first to the middle of
/// the column (its row G) and then to the center of the chosen cell.
pub proof fn law_two_keys_reach_cell(s: OverlayApp, col_key: Key, row_key: Key)
    requires
        s.ready_for_input,
        s.nav_state == NavState::WaitingForColumn,
        col_position(col_key) is Some,
        row_position(row_key) is Some,
    ensures
        ({
            let w = s.grid_width as int;
            let h = s.grid_height as int;
            let c = col_position(col_key).unwrap();
            let r = row_position(row_key).unwrap();
            let (s1, a1) = key_press_step(s, OverlayKey::Character(key_label(col_key).unwrap()));
            let (s2, a2) = key_press_step(s1, OverlayKey::Character(key_label(row_key).unwrap()));
            &&& a1 == OverlayAction::MoveMouse(cell_point(c, 14, w, h))
            &&& s1 == OverlayApp { nav_state: NavState::ColumnSelected(col_key), ..s }
            &&& a2 == OverlayAction::MoveMouse(cell_point(c, r, w, h))
            &&& s2 == OverlayApp { nav_state: NavState::CellSelected(col_key, row_key), ..s }
        }),
{
    lemma_key_for_label(col_key);
    lemma_key_for_label(row_key);
}

/// After a cell, a key from the left half of the keyboard moves the pointer
/// to the center of the cell's left third, one from the right half to the
/// center of its right third.
pub proof fn law_third_key_picks_side(s: OverlayApp, col_key: Key, row_key: Key, key: Key)
    requires
        s.ready_for_input,
        s.nav_state == NavState::CellSelected(col_key, row_key),
        col_position(col_key) is Some,
        row_position(row_key) is Some,
        row_position(key) is Some,
    ensures
        ({
            let side = if row_position(key).unwrap() % 10 < 5 { Side::Left } else { Side::Right };
            let (s1, a1) = key_press_step(s, OverlayKey::Character(key_label(key).unwrap()));
            &&& a1 == OverlayAction::MoveMouse(third_point(
                col_position(col_key).unwrap(),
                row_position(row_key).unwrap(),
                side,
                s.grid_width as int,
                s.grid_height as int,
            ))
            &&& s1 == OverlayApp { nav_state: NavState::ThirdSelected(col_key, row_key, side), ..s }
        }),
{
    lemma_key_for_label(key);
}

/// A first key that is not a column key closes the overlay.
pub proof fn law_first_key_must_be_column(s: OverlayApp, c: char)
    requires
        s.ready_for_input,
        s.nav_state == NavState::WaitingForColumn,
        !(key_for_char(ascii_upper(c)) matches Some(k) && col_position(k) is Some),
    ensures
        key_press_step(s, OverlayKey::Character(c)) == (closed(s), OverlayAction::Close),
{
}

/// A character that no grid key carries closes the overlay, in every state.
pub proof fn law_unknown_key_closes(s: OverlayApp, c: char)
    requires
        s.ready_for_input,
        key_for_char(ascii_upper(c)) is None,
    ensures
        key_press_step(s, OverlayKey::Character(c)) == (closed(s), OverlayAction::Close),
{
}

/// Once a third is chosen, any further typed key closes the overlay.
pub proof fn law_key_after_third_closes(s: OverlayApp, c: char)
    requires
        s.ready_for_input,
        s.nav_state is ThirdSelected,
    ensures
        key_press_step(s, OverlayKey::Character(c)) == (closed(s), OverlayAction::Close),
{
}

/// Lower-case letters navigate as their upper-case forms do.
pub proof fn law_case_does_not_matter(s: OverlayApp, c: char)
    requires
        97 <= (c as u32) <= 122,
    ensures
        key_press_step(s, OverlayKey::Character(c)) == key_press_step(s, OverlayKey::Character(ascii_upper(c))),
{
    let u = ascii_upper(c);
    assert((u as u32) == (c as u32) - 32);
    assert(ascii_upper(u) == u);
}

// ---------------------------------------------------------------------------
// The grid
// ---------------------------------------------------------------------------

/// The center of a cell lies strictly inside the cell: between the column's
/// left and right edges (`col * width / 10` and `(col + 1) * width / 10`)
/// and the row's top and bottom edges.
pub proof fn law_center_inside_cell(col: int, row: int, width: int, height: int)
    requires
        0 <= col < 10,
        0 <= row < 30,
        0 < width,
        0 < height,
    ensures
        6 * col * width < center_x(col, width) < 6 * (col + 1) * width,
        2 * row * height < center_y(row, height) < 2 * (row + 1) * height,
{
    assert(6 * col * width < (6 * col + 3) * width < 6 * (col + 1) * width) by (nonlinear_arith)
        requires 0 < width;
    assert(2 * row * height < (2 * row + 1) * height < 2 * (row + 1) * height) by (nonlinear_arith)
        requires 0 < height;
}

/// The center of the left third lies in the first third of the cell, the
/// center of the right third in its last third.
pub proof fn law_thirds_inside_cell(col: int, width: int)
    requires
        0 <= col < 10,
        0 < width,
    ensures
        6 * col * width < third_x(col, Side::Left, width) < 6 * col * width + 2 * width,
        6 * col * width + 4 * width < third_x(col, Side::Right, width) < 6 * (col + 1) * width,
{
    assert(6 * col * width < (6 * col + 1) * width < 6 * col * width + 2 * width) by (nonlinear_arith)
        requires 0 < width;
    assert(6 * col * width + 4 * width < (6 * col + 5) * width < 6 * (col + 1) * width) by (nonlinear_arith)
        requires 0 < width;
}

/// The column keys are the keys of the middle letter row: column `c` is row
/// `c + 10`.
pub proof fn law_columns_are_home_row(k: Key)
    ensures
        col_position(k) matches Some(c) ==> row_position(k) == Some(c + 10),
{
}

/// The row keys are exactly the keys that carry a character, and each of them
/// lies on one half of the keyboard.
pub proof fn law_row_keys_are_labelled(k: Key)
    ensures
        row_position(k) is Some <==> key_label(k) is Some,
{
}

/// Inside a cell, away from the grid lines, a pixel shows its column's
/// background, and mirrored columns share their background.
pub proof fn law_cell_interior_shows_column_color(
    x: int,
    y: int,
    cw: int,
    ch: int,
    palette: Seq<u32>,
    col: int,
    row: int,
)
    requires
        0 <= col < 10,
        0 <= row < 30,
        col * cw + 2 <= x < (col + 1) * cw,
        row * ch < y < (row + 1) * ch,
    ensures
        grid_pixel(x, y, cw, ch, palette) == palette[if col < 5 { col } else { 9 - col }],
        column_color_index(col) == column_color_index(9 - col),
        0 <= column_color_index(col) < 5,
{
    assert(cw >= 3 && ch >= 2 && x >= 0 && y >= 0) by (nonlinear_arith)
        requires
            0 <= col,
            0 <= row,
            col * cw + 2 <= x < (col + 1) * cw,
            row * ch < y < (row + 1) * ch;
    assert((col + 1) * cw == col * cw + cw) by (nonlinear_arith);
    assert((row + 1) * ch == row * ch + ch) by (nonlinear_arith);
    lemma_fundamental_div_mod_converse(x, cw, col, x - col * cw);
    lemma_fundamental_div_mod_converse(y, ch, row, y - row * ch);
    lemma_vertical_line(x, cw);
    lemma_horizontal_line(y, ch);
    assert(x < 10 * cw) by (nonlinear_arith)
        requires x < (col + 1) * cw, col < 10, cw >= 3;
}

/// The label of each cell reads the characters of its column key and of its
/// row key.
pub proof fn law_labels_name_their_keys(i: int, gw: int, gh: int)
    requires
        0 <= i < 300,
    ensures
        key_label(col_keys()[i / 30]) == Some(label_at(i, gw, gh).col_char),
        key_label(row_keys()[i % 30]) == Some(label_at(i, gw, gh).row_char),
{
    lemma_key_chars();
    assert(0 <= i / 30 < 10);
    assert(0 <= i % 30 < 30);
}

/// The painted frame: `frame` is what `paint_grid` leaves in a buffer of
/// `bw` by `bh` pixels for a `gw` by `gh` grid.
pub open spec fn is_painted_frame(frame: Seq<u32>, bw: int, bh: int, gw: int, gh: int, palette: Seq<u32>) -> bool {
    forall|j: int| 0 <= j < frame.len() ==> #[trigger] frame[j] == grid_frame_pixel(j, bw, bh, gw, gh, palette)
}

proof fn lemma_frame_at(frame: Seq<u32>, bw: int, bh: int, gw: int, gh: int, palette: Seq<u32>, x: int, y: int)
    requires
        is_painted_frame(frame, bw, bh, gw, gh, palette),
        0 <= x < bw,
        0 <= y < bh,
        0 <= y * bw + x < frame.len(),
    ensures
        frame[y * bw + x] == grid_pixel(x, y, gw / 10, gh / 30, palette),
{
    lemma_fundamental_div_mod_converse(y * bw + x, bw, y, x);
    assert(frame[y * bw + x] == grid_frame_pixel(y * bw + x, bw, bh, gw, gh, palette));
}

/// Every pixel of a horizontal line of the painted frame is white: the
/// lines lie every `gh / 30` pixels, from the top of the grid (row 0) to its
/// bottom (row 30).
pub proof fn law_painted_horizontal_lines(
    frame: Seq<u32>,
    bw: int,
    bh: int,
    gw: int,
    gh: int,
    palette: Seq<u32>,
    x: int,
    r: int,
)
    requires
        is_painted_frame(frame, bw, bh, gw, gh, palette),
        0 <= gh,
        0 <= r <= 30,
        0 <= x < bw,
        r * (gh / 30) < bh,
        0 <= r * (gh / 30) * bw + x < frame.len(),
    ensures
        frame[r * (gh / 30) * bw + x] == WHITE,
{
    let ch = gh / 30;
    let y = r * ch;
    assert(0 <= y) by (nonlinear_arith)
        requires 0 <= r, 0 <= gh, ch == gh / 30, y == r * ch;
    lemma_frame_at(frame, bw, bh, gw, gh, palette, x, y);
    assert(y == r * ch);
}

/// Every pixel of a vertical line of the painted frame is white: the lines
/// are two pixels wide and lie every `gw / 10` pixels, from the left of the
/// grid (column 0) to its right (column 10).
pub proof fn law_painted_vertical_lines(
    frame: Seq<u32>,
    bw: int,
    bh: int,
    gw: int,
    gh: int,
    palette: Seq<u32>,
    c: int,
    d: int,
    y: int,
)
    requires
        is_painted_frame(frame, bw, bh, gw, gh, palette),
        0 <= gw,
        0 <= c <= 10,
        0 <= d < 2,
        c * (gw / 10) + d < bw,
        0 <= y < bh,
        0 <= y * bw + c * (gw / 10) + d < frame.len(),
    ensures
        frame[y * bw + c * (gw / 10) + d] == WHITE,
{
    let cw = gw / 10;
    let x = c * cw + d;
    assert(0 <= c * cw) by (nonlinear_arith)
        requires 0 <= c, 0 <= gw, cw == gw / 10;
    lemma_frame_at(frame, bw, bh, gw, gh, palette, x, y);
    assert(c * cw <= x < c * cw + 2);
}

/// Inside a cell, away from the grid lines, the painted frame shows the
/// background of the cell's column: `palette[col]` for the five left
/// columns and `palette[9 - col]` for the five right ones. Columns are
/// `gw / 10` pixels wide and rows `gh / 30` pixels high.
pub proof fn law_painted_backgrounds(
    frame: Seq<u32>,
    bw: int,
    bh: int,
    gw: int,
    gh: int,
    palette: Seq<u32>,
    col: int,
    row: int,
    x: int,
    y: int,
)
    requires
        is_painted_frame(frame, bw, bh, gw, gh, palette),
        0 <= col < 10,
        0 <= row < 30,
        col * (gw / 10) + 2 <= x < (col + 1) * (gw / 10),
        row * (gh / 30) < y < (row + 1) * (gh / 30),
        x < bw,
        y < bh,
        y * bw + x < frame.len(),
    ensures
        frame[y * bw + x] == palette[if col < 5 { col } else { 9 - col }],
{
    let cw = gw / 10;
    let ch = gh / 30;
    assert(cw >= 3 && ch >= 2 && x >= 0 && y >= 0) by (nonlinear_arith)
        requires
            0 <= col,
            0 <= row,
            col * cw + 2 <= x < (col + 1) * cw,
            row * ch < y < (row + 1) * ch;
    assert(0 <= y * bw + x) by (nonlinear_arith)
        requires 0 <= y, 0 <= x, 0 <= x < bw;
    lemma_frame_at(frame, bw, bh, gw, gh, palette, x, y);
    law_cell_interior_shows_column_color(x, y, cw, ch, palette, col, row);
}

/// The labels that `cell_labels` lays out for a `gw` by `gh` grid: the label
/// of column `col` and row `row` is number `30 * col + row`, reads the
/// characters of the column key and of the row key, and sits at the
/// top-left corner of the cell, `col * (gw / 10)` pixels from the left and
/// `row * (gh / 30)` pixels from the top.
pub proof fn law_label_positions(labels: Seq<CellLabel>, gw: u32, gh: u32, col: int, row: int)
    requires
        labels == Seq::new(300, |i: int| label_at(i, gw as int, gh as int)),
        0 <= col < 10,
        0 <= row < 30,
    ensures
        labels.len() == 300,
        labels[30 * col + row].cell_x as int == col * (gw / 10),
        labels[30 * col + row].cell_y as int == row * (gh / 30),
        key_label(col_keys()[col]) == Some(labels[30 * col + row].col_char),
        key_label(row_keys()[row]) == Some(labels[30 * col + row].row_char),
{
    let i = 30 * col + row;
    lemma_fundamental_div_mod_converse(i, 30, col, row);
    lemma_key_chars();
    assert(0 <= col * (gw / 10) <= gw) by (nonlinear_arith)
        requires 0 <= col < 10;
    assert(0 <= row * (gh / 30) <= gh) by (nonlinear_arith)
        requires 0 <= row < 30;
    assert(labels[i] == label_at(i, gw as int, gh as int));
}

/// Left Control opens the overlay only right after Alt: pressed first, or
/// after a key other than Alt and left Control, it is recorded like any key
/// and the listener keeps monitoring.
pub proof fn law_control_without_alt_does_not_open(history: Seq<Key>, current: Set<Key>)
    requires
        history.len() == 0 || (history.last() != Key::Alt && history.last() != Key::ControlLeft),
    ensures
        listener_step(history, current, AppMode::Monitoring, InputEvent::KeyPress(Key::ControlLeft)) == (
            dedup_seq(history).push(Key::ControlLeft),
            current.insert(Key::ControlLeft),
            AppMode::Monitoring,
            None::<OverlayCommand>,
        ),
{
    let pushed = history.push(Key::ControlLeft);
    assert(pushed.drop_last() =~= history);
    if history.len() > 0 {
        lemma_dedup_last(history);
        assert(dedup_seq(pushed) == dedup_seq(history).push(Key::ControlLeft));
    } else {
        assert(dedup_seq(history) =~= Seq::<Key>::empty());
        assert(dedup_seq(pushed) =~= seq![Key::ControlLeft]);
    }
}

} // verus!
