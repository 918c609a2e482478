use keyboard_rs::hotkey::{KeyCode, KeyEvent, PressedKeys};

#[test]
fn ctrl_alt_i_fires_and_clears() {
    let mut keys = PressedKeys::new();
    assert!(!keys.handle_event(KeyEvent::Press(KeyCode::ControlLeft)));
    assert!(!keys.handle_event(KeyEvent::Press(KeyCode::Alt)));
    assert!(keys.handle_event(KeyEvent::Press(KeyCode::KeyI)));
    assert!(keys.keys.is_empty());
}

#[test]
fn right_control_works_too() {
    let mut keys = PressedKeys::new();
    keys.handle_event(KeyEvent::Press(KeyCode::KeyI));
    keys.handle_event(KeyEvent::Press(KeyCode::ControlRight));
    assert!(keys.handle_event(KeyEvent::Press(KeyCode::Alt)));
}

#[test]
fn release_forgets_and_repeat_is_held_once() {
    let mut keys = PressedKeys::new();
    keys.handle_event(KeyEvent::Press(KeyCode::Other(5)));
    keys.handle_event(KeyEvent::Press(KeyCode::Other(5)));
    keys.handle_event(KeyEvent::Press(KeyCode::Alt));
    assert_eq!(keys.keys, vec![KeyCode::Other(5), KeyCode::Alt]);
    keys.handle_event(KeyEvent::Release(KeyCode::Other(5)));
    assert_eq!(keys.keys, vec![KeyCode::Alt]);
    keys.handle_event(KeyEvent::Other);
    assert_eq!(keys.keys, vec![KeyCode::Alt]);
    keys.handle_event(KeyEvent::Release(KeyCode::Alt));
    keys.handle_event(KeyEvent::Press(KeyCode::ControlLeft));
    assert!(!keys.handle_event(KeyEvent::Press(KeyCode::KeyI)));
}
