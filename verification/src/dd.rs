//! Codes of the DD virtual keyboard/mouse SDK: which number each call
//! passes for a key, a button or a wheel step, and how a reply reads.

use vstd::prelude::*;
use crate::key_id::MouseButton;

verus! {

/// The `MOUSE_INPUT_DATA.ButtonFlags` value of a side button press or
/// release: X1 down 64, up 128; X2 down 256, up 512.
pub open spec fn side_button_flag_spec(button: MouseButton, is_up: bool) -> i32 {
    match (button, is_up) {
        (MouseButton::X1, false) => 64,
        (MouseButton::X1, true) => 128,
        (MouseButton::X2, false) => 256,
        _ => 512,
    }
}

/// The `DD_btn` code of a button press or release: left 1/2, right 4/8,
/// middle 16/32, side buttons as [`side_button_flag_spec`].
pub open spec fn mouse_flag_spec(button: MouseButton, is_up: bool) -> i32 {
    match button {
        MouseButton::Left => if is_up { 2 } else { 1 },
        MouseButton::Right => if is_up { 8 } else { 4 },
        MouseButton::Middle => if is_up { 32 } else { 16 },
        _ => side_button_flag_spec(button, is_up),
    }
}

/// A button that `DD_btn` presses (the wheel goes through `DD_whl`).
pub open spec fn is_pressable(button: MouseButton) -> bool {
    button != MouseButton::WheelUp && button != MouseButton::WheelDown
}

/// The flag for a side button press or release, as the driver reads
/// `MOUSE_INPUT_DATA.ButtonFlags`.
pub fn simple_side_button_flag(button: MouseButton, is_up: bool) -> (r: i32)
    requires
        button == MouseButton::X1 || button == MouseButton::X2,
    ensures
        r == side_button_flag_spec(button, is_up),
{
    match (button, is_up) {
        (MouseButton::X1, false) => 64,
        (MouseButton::X1, true) => 128,
        (MouseButton::X2, false) => 256,
        _ => 512,
    }
}

/// The `DD_whl` code of one wheel step: 1 up, 2 down.
pub fn dd_wheel_code(up: bool) -> (r: i32)
    ensures
        r == if up { 1i32 } else { 2i32 },
{
    if up {
        1
    } else {
        2
    }
}

/// The `DD_key` flag of a key press (1) or release (2).
pub fn dd_key_flag(is_up: bool) -> (r: i32)
    ensures
        r == if is_up { 2i32 } else { 1i32 },
{
    if is_up {
        2
    } else {
        1
    }
}

/// The `DD_btn` code of a button press or release.
pub fn dd_mouse_flag(button: MouseButton, is_up: bool) -> (r: i32)
    requires
        is_pressable(button),
    ensures
        r == mouse_flag_spec(button, is_up),
{
    match button {
        MouseButton::Left => if is_up {
            2
        } else {
            1
        },
        MouseButton::Right => if is_up {
            8
        } else {
            4
        },
        MouseButton::Middle => if is_up {
            32
        } else {
            16
        },
        _ => simple_side_button_flag(button, is_up),
    }
}

/// `DD_todc` answers 0 for a virtual key it has no code for; such a key is
/// dropped.
pub fn dd_code_mapped(ddcode: i32) -> (r: bool)
    ensures
        r == (ddcode != 0),
{
    ddcode != 0
}

/// `DD_key` forwards the driver's success as 1; 0, -1 and -2 report
/// failures.
pub fn dd_key_sent(ret: i32) -> (r: bool)
    ensures
        r == (ret == 1),
{
    ret == 1
}

/// `DD_btn(0)` is the SDK's readiness probe: the driver is usable only when
/// it answers 1.
pub fn dd_driver_ready(status: i32) -> (r: bool)
    ensures
        r == (status == 1),
{
    status == 1
}

/// Every pressable button has distinct press and release codes, the release
/// code being twice the press code, and different buttons never share a code.
pub proof fn mouse_flags_are_distinct(a: MouseButton, b: MouseButton, up_a: bool, up_b: bool)
    requires
        is_pressable(a),
        is_pressable(b),
    ensures
        mouse_flag_spec(a, true) == 2 * mouse_flag_spec(a, false),
        mouse_flag_spec(a, up_a) == mouse_flag_spec(b, up_b) ==> a == b && up_a == up_b,
{
}

} // verus!
