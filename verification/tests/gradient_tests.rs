use altctrl::gradient::{fill_gradient, SoftbufferTest, TestAction};
use altctrl::navigation::{OverlayKey, WindowInput};

#[test]
fn test_window_size() {
    let t = SoftbufferTest::new();
    assert_eq!((t.width, t.height), (800, 600));
}

#[test]
fn gradient_values() {
    let mut buf = vec![0xAAu32; 4 * 2 + 1];
    fill_gradient(&mut buf, 4, 2);
    assert_eq!(buf[0], 0x0000_8000);
    // x = 3: red = 3 * 255 / 4 = 191; y = 1: blue = 255 / 2 = 127.
    assert_eq!(buf[7], 0x00BF_807F);
    assert_eq!(buf[4], 0x0000_807F);
    // Past width * height: untouched.
    assert_eq!(buf[8], 0xAA);
}

#[test]
fn test_window_events() {
    let t = SoftbufferTest::new();
    assert_eq!(t.window_event(WindowInput::CloseRequested), TestAction::Exit);
    assert_eq!(t.window_event(WindowInput::RedrawRequested), TestAction::Render);
    assert_eq!(t.window_event(WindowInput::KeyPressed(OverlayKey::Escape)), TestAction::Nothing);
    assert_eq!(t.about_to_wait(true), TestAction::RedrawAndPoll);
    assert_eq!(t.about_to_wait(false), TestAction::Exit);
}
