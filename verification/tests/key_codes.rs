use flair_bloom::clicker::{
    burst_targets, hotkey_action, initial_config, num2button, num2key, Button, Config,
    HotkeyAction, Key,
};
use flair_bloom::dd::{
    dd_code_mapped, dd_driver_ready, dd_key_flag, dd_key_sent, dd_mouse_flag, dd_wheel_code, simple_side_button_flag,
};
use flair_bloom::key_id::MouseButton;

#[test]
fn simple_side_button_flags_follow_mouse_input_data_values() {
    assert_eq!(simple_side_button_flag(MouseButton::X1, false), 64);
    assert_eq!(simple_side_button_flag(MouseButton::X1, true), 128);
    assert_eq!(simple_side_button_flag(MouseButton::X2, false), 256);
    assert_eq!(simple_side_button_flag(MouseButton::X2, true), 512);
}

#[test]
fn dd_wheel_codes_follow_sdk_values() {
    assert_eq!(dd_wheel_code(true), 1);
    assert_eq!(dd_wheel_code(false), 2);
}

#[test]
fn dd_mouse_flags_follow_sdk_values() {
    assert_eq!(dd_mouse_flag(MouseButton::Left, false), 1);
    assert_eq!(dd_mouse_flag(MouseButton::Left, true), 2);
    assert_eq!(dd_mouse_flag(MouseButton::Right, false), 4);
    assert_eq!(dd_mouse_flag(MouseButton::Right, true), 8);
    assert_eq!(dd_mouse_flag(MouseButton::Middle, false), 16);
    assert_eq!(dd_mouse_flag(MouseButton::Middle, true), 32);
    assert_eq!(dd_mouse_flag(MouseButton::X2, true), 512);
}

#[test]
fn dd_key_codes_follow_sdk_values() {
    assert_eq!(dd_key_flag(false), 1);
    assert_eq!(dd_key_flag(true), 2);
    assert!(dd_key_sent(1));
    assert!(!dd_key_sent(0));
    assert!(!dd_key_sent(-1));
    assert!(!dd_key_sent(-2));
}

#[test]
fn key_numbers_map_to_keys() {
    assert_eq!(num2key(1), Key::Digit(1));
    assert_eq!(num2key(9), Key::Digit(9));
    assert_eq!(num2key(10), Key::Digit(0));
    assert_eq!(num2key(11), Key::Letter('A'));
    assert_eq!(num2key(36), Key::Letter('Z'));
    assert_eq!(num2key(37), Key::Keypad(1));
    assert_eq!(num2key(45), Key::Keypad(9));
    assert_eq!(num2key(46), Key::Keypad(0));
    assert_eq!(num2key(0), Key::Unknown(0));
    assert_eq!(num2key(47), Key::Unknown(0));
}

#[test]
fn button_numbers_map_to_buttons() {
    assert_eq!(num2button(1), Button::Left);
    assert_eq!(num2button(2), Button::Right);
    assert_eq!(num2button(3), Button::Middle);
    assert_eq!(num2button(0), Button::Unknown(0));
    assert_eq!(num2button(4), Button::Unknown(0));
}

#[test]
fn hotkeys_start_and_stop() {
    let cfg = initial_config();
    assert_eq!(cfg, Config { mouse: 0, keyboard: 0, interval: 100, start: 9, stop: 10 });
    assert_eq!(hotkey_action(&cfg, Key::Digit(9)), HotkeyAction::Start);
    assert_eq!(hotkey_action(&cfg, Key::Digit(0)), HotkeyAction::Stop);
    assert_eq!(hotkey_action(&cfg, Key::Letter('A')), HotkeyAction::Ignore);
}

#[test]
fn hotkeys_need_a_start_key() {
    let cfg = Config { mouse: 0, keyboard: 0, interval: 100, start: 0, stop: 10 };
    assert_eq!(hotkey_action(&cfg, Key::Digit(0)), HotkeyAction::Ignore);
    let same = Config { mouse: 0, keyboard: 0, interval: 100, start: 12, stop: 12 };
    assert_eq!(hotkey_action(&same, Key::Letter('B')), HotkeyAction::Start);
}

#[test]
fn burst_targets_skip_unknown_numbers() {
    let cfg = Config { mouse: 2, keyboard: 11, interval: 50, start: 9, stop: 10 };
    assert_eq!(burst_targets(&cfg), (Some(Button::Right), Some(Key::Letter('A'))));
    assert_eq!(burst_targets(&initial_config()), (None, None));
}

#[test]
fn dd_probe_and_mapping_follow_sdk_values() {
    assert!(dd_driver_ready(1));
    assert!(!dd_driver_ready(0));
    assert!(!dd_driver_ready(-1));
    assert!(dd_code_mapped(401));
    assert!(!dd_code_mapped(0));
}
