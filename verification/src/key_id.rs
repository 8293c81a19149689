//! Identifiers of the keys and mouse buttons a burst rule reads and sends.

use vstd::prelude::*;

verus! {

/// A mouse button, including the wheel directions and the two side buttons.
#[derive(Debug, Clone, Copy, PartialEq, Eq, Structural)]
pub enum MouseButton {
    Left,
    Right,
    Middle,
    X1,
    X2,
    WheelUp,
    WheelDown,
}

/// A key: a keyboard key by its virtual-key code, or a mouse button.
#[derive(Debug, Clone, Copy, PartialEq, Eq, Structural)]
pub enum KeyId {
    Keyboard(u32),
    Mouse(MouseButton),
}

} // verus!
