use keyboard_rs::serial::{
    choose_serial_port, classify_serial_event, parse_serial_line, split_once_colon,
    strip_trailing_line_breaks, PortInfo, SerialCommand,
};
use keyboard_rs::types::MacroType;

fn port(name: &str, usb: bool) -> PortInfo {
    PortInfo { port_name: name.to_string(), is_usb: usb }
}

#[test]
fn press_and_hold_lines() {
    match parse_serial_line("PRESS:1") {
        SerialCommand::Run { macro_type, key } => {
            assert_eq!(macro_type, MacroType::Press);
            assert_eq!(key, "1");
        }
        _ => panic!("expected a press"),
    }
    match parse_serial_line("HOLD:#") {
        SerialCommand::Run { macro_type, key } => {
            assert_eq!(macro_type, MacroType::Hold);
            assert_eq!(key, "#");
        }
        _ => panic!("expected a hold"),
    }
}

#[test]
fn event_is_compared_upper_cased() {
    match parse_serial_line("press:2") {
        SerialCommand::Run { macro_type, key } => {
            assert_eq!(macro_type, MacroType::Press);
            assert_eq!(key, "2");
        }
        _ => panic!("expected a press"),
    }
    match parse_serial_line("hold:*") {
        SerialCommand::Run { macro_type, .. } => assert_eq!(macro_type, MacroType::Hold),
        _ => panic!("expected a hold"),
    }
}

#[test]
fn key_keeps_later_colons() {
    match parse_serial_line("PRESS:a:b") {
        SerialCommand::Run { key, .. } => assert_eq!(key, "a:b"),
        _ => panic!("expected a press"),
    }
}

#[test]
fn unhandled_and_invalid_lines() {
    match parse_serial_line("tap:1") {
        SerialCommand::UnhandledEvent(e) => assert_eq!(e, "TAP"),
        _ => panic!("expected an unhandled event"),
    }
    assert!(matches!(parse_serial_line("PRESS1"), SerialCommand::InvalidFormat));
    assert!(matches!(parse_serial_line(""), SerialCommand::InvalidFormat));
    match classify_serial_event("HOLD".to_string(), "0".to_string()) {
        SerialCommand::Run { macro_type, key } => {
            assert_eq!(macro_type, MacroType::Hold);
            assert_eq!(key, "0");
        }
        _ => panic!(),
    }
    assert!(matches!(
        classify_serial_event("press".to_string(), "0".to_string()),
        SerialCommand::UnhandledEvent(_)
    ));
}

#[test]
fn split_at_first_colon() {
    assert_eq!(split_once_colon("a:b:c"), Some(("a".to_string(), "b:c".to_string())));
    assert_eq!(split_once_colon(":"), Some((String::new(), String::new())));
    assert_eq!(split_once_colon("abc"), None);
}

#[test]
fn usb_port_is_preferred() {
    let ports = vec![port("/dev/ttyS0", false), port("/dev/ttyUSB0", true), port("/dev/ttyUSB1", true)];
    assert_eq!(choose_serial_port(&ports), Some("/dev/ttyUSB0".to_string()));
    let ports = vec![port("/dev/ttyS0", false), port("/dev/ttyS1", false)];
    assert_eq!(choose_serial_port(&ports), Some("/dev/ttyS0".to_string()));
    assert_eq!(choose_serial_port(&vec![]), None);
}

#[test]
fn trailing_line_breaks_are_stripped() {
    assert_eq!(strip_trailing_line_breaks("hello\r\n\n"), "hello");
    assert_eq!(strip_trailing_line_breaks("a\nb\n"), "a\nb");
    assert_eq!(strip_trailing_line_breaks("\n\r"), "");
    assert_eq!(strip_trailing_line_breaks("x "), "x ");
}
