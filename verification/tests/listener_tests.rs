use altctrl::keys::Key;
use altctrl::listener::{dedup_keys, AppMode, AppState, InputEvent, KeySet, OverlayCommand};

#[test]
fn chord_opens_overlay() {
    let mut s = AppState::new();
    assert_eq!(s.handle_event(InputEvent::KeyPress(Key::Alt)), None);
    assert_eq!(s.app_mode, AppMode::Monitoring);
    assert_eq!(s.keys_history, vec![Key::Alt]);
    assert_eq!(s.handle_event(InputEvent::KeyPress(Key::ControlLeft)), Some(OverlayCommand::Show));
    assert_eq!(s.app_mode, AppMode::Navigating);
    assert!(s.keys_history.is_empty());
    assert!(!s.keys_current.contains(Key::Alt));
    assert!(!s.keys_current.contains(Key::ControlLeft));
}

#[test]
fn chord_after_other_keys_and_repeats_opens_overlay() {
    let mut s = AppState::new();
    assert_eq!(s.handle_event(InputEvent::KeyPress(Key::KeyQ)), None);
    assert_eq!(s.handle_event(InputEvent::KeyPress(Key::Alt)), None);
    // Auto-repeat of Alt is collapsed into one entry.
    assert_eq!(s.handle_event(InputEvent::KeyPress(Key::Alt)), None);
    assert_eq!(s.keys_history, vec![Key::KeyQ, Key::Alt]);
    assert_eq!(s.handle_event(InputEvent::KeyPress(Key::ControlLeft)), Some(OverlayCommand::Show));
}

#[test]
fn control_then_alt_does_not_open() {
    let mut s = AppState::new();
    assert_eq!(s.handle_event(InputEvent::KeyPress(Key::ControlLeft)), None);
    assert_eq!(s.handle_event(InputEvent::KeyPress(Key::Alt)), None);
    assert_eq!(s.app_mode, AppMode::Monitoring);
}

#[test]
fn right_control_does_not_open() {
    let mut s = AppState::new();
    s.handle_event(InputEvent::KeyPress(Key::Alt));
    assert_eq!(s.handle_event(InputEvent::KeyPress(Key::ControlRight)), None);
    assert_eq!(s.app_mode, AppMode::Monitoring);
}

#[test]
fn release_between_keys_forgets_history() {
    let mut s = AppState::new();
    s.handle_event(InputEvent::KeyPress(Key::Alt));
    assert_eq!(s.handle_event(InputEvent::KeyRelease(Key::Alt)), None);
    assert!(s.keys_history.is_empty());
    assert!(!s.keys_current.contains(Key::Alt));
    assert_eq!(s.handle_event(InputEvent::KeyPress(Key::ControlLeft)), None);
    assert_eq!(s.app_mode, AppMode::Monitoring);
}

#[test]
fn navigating_ignores_events() {
    let mut s = AppState::new();
    s.handle_event(InputEvent::KeyPress(Key::Alt));
    s.handle_event(InputEvent::KeyPress(Key::ControlLeft));
    assert_eq!(s.handle_event(InputEvent::KeyPress(Key::KeyA)), None);
    assert_eq!(s.handle_event(InputEvent::KeyRelease(Key::KeyA)), None);
    assert!(s.keys_history.is_empty());
    assert!(!s.keys_current.contains(Key::KeyA));
    assert_eq!(s.app_mode, AppMode::Navigating);
}

#[test]
fn other_events_change_nothing() {
    let mut s = AppState::new();
    s.handle_event(InputEvent::KeyPress(Key::KeyZ));
    assert_eq!(s.handle_event(InputEvent::Other), None);
    assert_eq!(s.keys_history, vec![Key::KeyZ]);
    assert!(s.keys_current.contains(Key::KeyZ));
}

#[test]
fn return_to_monitoring_resets() {
    let mut s = AppState::new();
    s.handle_event(InputEvent::KeyPress(Key::Alt));
    s.handle_event(InputEvent::KeyPress(Key::ControlLeft));
    s.return_to_monitoring();
    assert_eq!(s.app_mode, AppMode::Monitoring);
    assert!(s.keys_history.is_empty());
    s.handle_event(InputEvent::KeyPress(Key::Alt));
    assert_eq!(s.handle_event(InputEvent::KeyPress(Key::ControlLeft)), Some(OverlayCommand::Show));
}

#[test]
fn dedup_collapses_runs() {
    let mut v = vec![Key::KeyA, Key::KeyA, Key::KeyB, Key::KeyB, Key::KeyB, Key::KeyA];
    dedup_keys(&mut v);
    assert_eq!(v, vec![Key::KeyA, Key::KeyB, Key::KeyA]);
    let mut empty: Vec<Key> = Vec::new();
    dedup_keys(&mut empty);
    assert!(empty.is_empty());
    let mut unknown = vec![Key::Unknown(1), Key::Unknown(2), Key::Unknown(2)];
    dedup_keys(&mut unknown);
    assert_eq!(unknown, vec![Key::Unknown(1), Key::Unknown(2)]);
}

#[test]
fn key_set_insert_remove() {
    let mut s = KeySet::new();
    assert!(!s.contains(Key::KeyA));
    s.insert(Key::KeyA);
    s.insert(Key::KeyA);
    s.insert(Key::KeyB);
    assert!(s.contains(Key::KeyA));
    assert!(s.contains(Key::KeyB));
    s.remove(Key::KeyA);
    assert!(!s.contains(Key::KeyA));
    assert!(s.contains(Key::KeyB));
    s.remove(Key::KeyC);
    assert!(s.contains(Key::KeyB));
    s.insert(Key::Unknown(5));
    assert!(s.contains(Key::Unknown(5)));
    assert!(!s.contains(Key::Unknown(6)));
    s.clear();
    assert!(!s.contains(Key::KeyB));
    assert!(!s.contains(Key::Unknown(5)));
}
