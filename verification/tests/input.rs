use desert_shooter_engine::input::{Key, MouseButton, RockButtons, WindowAction};

#[test]
fn held_keys_follow_their_state() {
    let mut b = RockButtons::default();
    assert_eq!(b.on_key(Key::W, true, true), WindowAction::Nothing);
    assert!(b.forward);
    b.on_key(Key::ShiftLeft, true, true);
    b.on_key(Key::Q, true, true);
    b.on_key(Key::ArrowLeft, true, true);
    assert!(b.run && b.spin_left && b.yaw_left);
    b.on_key(Key::W, false, true);
    assert!(!b.forward);
    assert!(b.run);
    b.on_key(Key::Other, true, true);
    assert!(b.run && b.spin_left && b.yaw_left && !b.forward);
}

#[test]
fn digits_select_stones_on_press() {
    let mut b = RockButtons::default();
    b.on_key(Key::Digit3, true, true);
    assert_eq!(b.stone_select, Some(2));
    b.on_key(Key::Digit7, false, true);
    assert_eq!(b.stone_select, Some(2));
    b.on_key(Key::Digit7, true, true);
    assert_eq!(b.stone_select, Some(6));
    b.end_frame();
    assert_eq!(b.stone_select, None);
}

#[test]
fn escape_releases_then_quits() {
    let mut b = RockButtons::default();
    assert_eq!(b.on_key(Key::Escape, true, true), WindowAction::ReleaseCursor);
    assert_eq!(b.on_key(Key::Escape, true, false), WindowAction::Exit);
    // a release acts as well
    assert_eq!(b.on_key(Key::Escape, false, true), WindowAction::ReleaseCursor);
    assert_eq!(b.on_key(Key::Escape, false, false), WindowAction::Exit);
    assert_eq!(b, RockButtons::default());
}

#[test]
fn restart_is_taken_once() {
    let mut b = RockButtons::default();
    b.on_key(Key::N, false, true);
    assert!(!b.restart);
    b.on_key(Key::N, true, true);
    assert!(b.take_restart());
    assert!(!b.take_restart());
}

#[test]
fn mouse_charges_and_grabs() {
    let mut b = RockButtons::default();
    assert_eq!(b.on_mouse_button(MouseButton::Left, true, false), WindowAction::GrabCursor);
    assert_eq!(b.on_mouse_button(MouseButton::Left, true, true), WindowAction::Nothing);
    assert_eq!(b.on_mouse_button(MouseButton::Right, true, true), WindowAction::Nothing);
    assert!(b.charging);
    b.end_frame();
    assert!(!b.charging);
    b.on_mouse_button(MouseButton::Right, true, true);
    b.on_mouse_button(MouseButton::Right, false, true);
    assert!(!b.charging);
}
