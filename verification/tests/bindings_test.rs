use keyboard_rs::key_actions::KeyAction;
use keyboard_rs::{linux, windows};

#[test]
fn linux_bindings() {
    match linux::press_action("4") {
        KeyAction::RunApp(c) => assert_eq!(c, "kitty"),
        _ => panic!(),
    }
    match linux::press_action("#") {
        KeyAction::RunCommand(c) => assert_eq!(c, "qdbus6 org.freedesktop.ScreenSaver /ScreenSaver Lock"),
        _ => panic!(),
    }
    match linux::hold_action("3") {
        KeyAction::RunCommand(c) => assert_eq!(c, ""),
        _ => panic!(),
    }
    match linux::hold_action("#") {
        KeyAction::RunCommand(c) => assert_eq!(c, "poweroff"),
        _ => panic!(),
    }
    assert!(matches!(linux::press_action("x"), KeyAction::Unmapped));
    assert!(matches!(linux::hold_action(""), KeyAction::Unmapped));
}

#[test]
fn windows_bindings() {
    match windows::press_action("3") {
        KeyAction::Print(m) => {
            assert_eq!(m, "Virtual desktop navigation not implemented on Windows.")
        }
        _ => panic!(),
    }
    match windows::press_action("1") {
        KeyAction::RunCommand(c) => assert_eq!(c, "start https://chat.openai.com"),
        _ => panic!(),
    }
    match windows::hold_action("#") {
        KeyAction::RunCommand(c) => assert_eq!(c, "shutdown /s /t 0"),
        _ => panic!(),
    }
    assert!(matches!(windows::hold_action("3"), KeyAction::Unmapped));
}
