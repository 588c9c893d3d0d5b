use altctrl::key_index::{col_map, row_map, KeyIndex};
use altctrl::keys::{char_to_key, is_column_key, key_side, Key, Side};

#[test]
fn chars_map_to_grid_keys() {
    assert_eq!(char_to_key('A'), Some(Key::KeyA));
    assert_eq!(char_to_key(';'), Some(Key::SemiColon));
    assert_eq!(char_to_key(','), Some(Key::Comma));
    assert_eq!(char_to_key('.'), Some(Key::Dot));
    assert_eq!(char_to_key('/'), Some(Key::Slash));
    assert_eq!(char_to_key('Q'), Some(Key::KeyQ));
    assert_eq!(char_to_key('a'), None);
    assert_eq!(char_to_key('1'), None);
    assert_eq!(char_to_key(' '), None);
}

#[test]
fn column_keys_are_home_row() {
    for k in [Key::KeyA, Key::KeyS, Key::KeyD, Key::KeyF, Key::KeyG, Key::KeyH, Key::KeyJ, Key::KeyK, Key::KeyL, Key::SemiColon] {
        assert!(is_column_key(k));
    }
    for k in [Key::KeyQ, Key::KeyZ, Key::Slash, Key::Alt, Key::Unknown(7)] {
        assert!(!is_column_key(k));
    }
}

#[test]
fn sides_split_each_row_in_halves() {
    assert_eq!(key_side(Key::KeyQ), Some(Side::Left));
    assert_eq!(key_side(Key::KeyT), Some(Side::Left));
    assert_eq!(key_side(Key::KeyY), Some(Side::Right));
    assert_eq!(key_side(Key::KeyG), Some(Side::Left));
    assert_eq!(key_side(Key::KeyH), Some(Side::Right));
    assert_eq!(key_side(Key::KeyB), Some(Side::Left));
    assert_eq!(key_side(Key::KeyN), Some(Side::Right));
    assert_eq!(key_side(Key::Slash), Some(Side::Right));
    assert_eq!(key_side(Key::Space), None);
}

#[test]
fn column_map_gives_columns() {
    let m = col_map();
    assert_eq!(m.get(Key::KeyA), Some(0));
    assert_eq!(m.get(Key::KeyG), Some(4));
    assert_eq!(m.get(Key::SemiColon), Some(9));
    assert_eq!(m.get(Key::KeyQ), None);
}

#[test]
fn row_map_gives_rows() {
    let m = row_map();
    assert_eq!(m.get(Key::KeyQ), Some(0));
    assert_eq!(m.get(Key::KeyP), Some(9));
    assert_eq!(m.get(Key::KeyA), Some(10));
    assert_eq!(m.get(Key::KeyG), Some(14));
    assert_eq!(m.get(Key::KeyZ), Some(20));
    assert_eq!(m.get(Key::Slash), Some(29));
    assert_eq!(m.get(Key::Escape), None);
}

#[test]
fn column_keys_are_rows_ten_further() {
    let cols = col_map();
    let rows = row_map();
    for k in [Key::KeyA, Key::KeyD, Key::KeyL, Key::SemiColon] {
        assert_eq!(rows.get(k), cols.get(k).map(|c| c + 10));
    }
}

#[test]
fn key_index_insert_replaces() {
    let mut m = KeyIndex::new();
    assert_eq!(m.get(Key::KeyA), None);
    m.insert(Key::KeyA, 3);
    m.insert(Key::KeyB, 4);
    assert_eq!(m.get(Key::KeyA), Some(3));
    m.insert(Key::KeyA, 7);
    assert_eq!(m.get(Key::KeyA), Some(7));
    assert_eq!(m.get(Key::KeyB), Some(4));
    m.insert(Key::Unknown(0), 9);
    assert_eq!(m.get(Key::Unknown(0)), Some(9));
    assert_eq!(m.get(Key::Alt), None);
    assert_eq!(m.get(Key::Unknown(1)), None);
}
