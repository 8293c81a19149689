//! The simple clicker: which button and key the configured numbers stand
//! for, what a hotkey press does, and what one round of clicking sends.

use vstd::prelude::*;

verus! {

/// A mouse button the clicker presses; `Unknown` for numbers without one.
#[derive(Debug, Clone, Copy, PartialEq, Eq, Structural)]
pub enum Button {
    Left,
    Right,
    Middle,
    Unknown(u8),
}

/// A key the clicker presses or listens for: a top-row digit, a letter
/// `'A'..='Z'`, a keypad digit, or `Unknown` for anything else.
#[derive(Debug, Clone, Copy, PartialEq, Eq, Structural)]
pub enum Key {
    Digit(u8),
    Letter(char),
    Keypad(u8),
    Unknown(u32),
}

/// The clicker's settings: which button (numbered 1..=3) and key (numbered
/// 1..=46) to fire, the pause between rounds, and the start and stop hotkeys.
#[derive(Debug, Clone, Copy, PartialEq, Eq)]
pub struct Config {
    pub mouse: u8,
    pub keyboard: u32,
    pub interval: u64,
    pub start: u32,
    pub stop: u32,
}

/// What a hotkey press does.
#[derive(Debug, Clone, Copy, PartialEq, Eq, Structural)]
pub enum HotkeyAction {
    Start,
    Stop,
    Ignore,
}

/// The button numbered `n`: 1 left, 2 right, 3 middle.
pub open spec fn button_for(n: u8) -> Button {
    if n == 1 {
        Button::Left
    } else if n == 2 {
        Button::Right
    } else if n == 3 {
        Button::Middle
    } else {
        Button::Unknown(0)
    }
}

/// The key numbered `n`: 1..=9 the digits 1..9 and 10 the digit 0; 11..=36
/// the letters A..Z; 37..=45 the keypad digits 1..9 and 46 keypad 0.
pub open spec fn key_for(n: u32) -> Key {
    if 1 <= n && n <= 9 {
        Key::Digit(n as u8)
    } else if n == 10 {
        Key::Digit(0)
    } else if 11 <= n && n <= 36 {
        Key::Letter(((n - 11) + 65) as u32 as char)
    } else if 37 <= n && n <= 45 {
        Key::Keypad((n - 36) as u8)
    } else if n == 46 {
        Key::Keypad(0)
    } else {
        Key::Unknown(0)
    }
}

/// The button a configured number stands for.
pub fn num2button(num: u8) -> (r: Button)
    ensures
        r == button_for(num),
{
    if num == 1 {
        Button::Left
    } else if num == 2 {
        Button::Right
    } else if num == 3 {
        Button::Middle
    } else {
        Button::Unknown(0)
    }
}

/// The key a configured number stands for.
pub fn num2key(num: u32) -> (r: Key)
    ensures
        r == key_for(num),
{
    if 1 <= num && num <= 9 {
        Key::Digit(num as u8)
    } else if num == 10 {
        Key::Digit(0)
    } else if 11 <= num && num <= 36 {
        let b: u8 = (num - 11 + 65) as u8;
        Key::Letter(b as char)
    } else if 37 <= num && num <= 45 {
        Key::Keypad((num - 36) as u8)
    } else if num == 46 {
        Key::Keypad(0)
    } else {
        Key::Unknown(0)
    }
}

/// The settings before any are received: no button, no key, 100 ms
/// between rounds, start on key 9 and stop on key 10.
pub fn initial_config() -> (r: Config)
    ensures
        r.mouse == 0,
        r.keyboard == 0,
        r.interval == 100,
        r.start == 9,
        r.stop == 10,
{
    Config { mouse: 0, keyboard: 0, interval: 100, start: 9, stop: 10 }
}

/// What pressing `pressed` does: the start key starts and the stop key
/// stops, both only when the start number stands for a key.
pub open spec fn hotkey_spec(config: Config, pressed: Key) -> HotkeyAction {
    let start = key_for(config.start);
    let stop = key_for(config.stop);
    if start != Key::Unknown(0) && pressed == start {
        HotkeyAction::Start
    } else if start != Key::Unknown(0) && pressed == stop {
        HotkeyAction::Stop
    } else {
        HotkeyAction::Ignore
    }
}

/// Decides what a key press does.
pub fn hotkey_action(config: &Config, pressed: Key) -> (r: HotkeyAction)
    ensures
        r == hotkey_spec(*config, pressed),
{
    let start = num2key(config.start);
    let stop = num2key(config.stop);
    if start != Key::Unknown(0) && pressed == start {
        HotkeyAction::Start
    } else if start != Key::Unknown(0) && pressed == stop {
        HotkeyAction::Stop
    } else {
        HotkeyAction::Ignore
    }
}

/// What one round of clicking sends: the configured button, clicked, and
/// the configured key, pressed, each when its number stands for one.
pub fn burst_targets(config: &Config) -> (r: (Option<Button>, Option<Key>))
    ensures
        r.0 == if button_for(config.mouse) == Button::Unknown(0) {
            None
        } else {
            Some(button_for(config.mouse))
        },
        r.1 == if key_for(config.keyboard) == Key::Unknown(0) {
            None
        } else {
            Some(key_for(config.keyboard))
        },
{
    let button = num2button(config.mouse);
    let key = num2key(config.keyboard);
    let b = if button == Button::Unknown(0) {
        None
    } else {
        Some(button)
    };
    let k = if key == Key::Unknown(0) {
        None
    } else {
        Some(key)
    };
    (b, k)
}

/// The numbering of keys: 1..=9 are the top-row digits 1..9 and 10 is 0;
/// 11..=36 are the letters in alphabetical order from `A` (number `n` is the
/// character with code `'A' + n - 11`); 37..=45 are keypad 1..9 and 46 is
/// keypad 0. Consecutive letter numbers give consecutive letters.
pub proof fn key_numbering(n: u32, m: u32)
    ensures
        1 <= n <= 9 ==> key_for(n) == Key::Digit(n as u8),
        key_for(10) == Key::Digit(0),
        11 <= n <= 36 ==> (key_for(n) matches Key::Letter(c) && c as u32 == 'A' as u32 + (n - 11)),
        11 <= n < m <= 36 ==> (key_for(n) matches Key::Letter(c) && (key_for(m) matches Key::Letter(
            d) && (c as u32) < (d as u32))),
        key_for(11) == Key::Letter('A'),
        key_for(36) == Key::Letter('Z'),
        37 <= n <= 45 ==> key_for(n) == Key::Keypad((n - 36) as u8),
        key_for(46) == Key::Keypad(0),
{
}

/// Different key numbers in 1..=46 stand for different keys, and every other
/// number stands for none.
pub proof fn key_numbers_are_distinct(n: u32, m: u32)
    ensures
        (key_for(n) == Key::Unknown(0)) == !(1 <= n && n <= 46),
        1 <= n <= 46 && 1 <= m <= 46 && n != m ==> key_for(n) != key_for(m),
{
}

} // verus!
