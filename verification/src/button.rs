//! Switch-like inputs: keyboard keys, mouse buttons and touches.

use vstd::prelude::*;

use crate::keyboard::KeyboardKey;

verus! {

/// Identifier of a touch point, stable while the touch lasts.
pub type TouchId = u64;

/// A mouse button.
#[derive(Clone, Copy, Debug, Eq, Hash, Ord, PartialEq, PartialOrd, Structural)]
pub enum MouseButton {
    Primary,
    Secondary,
    Auxiliary,
}

/// Any input that can be pressed and released.
#[derive(Clone, Copy, Debug, Eq, Hash, PartialEq, Structural)]
pub enum ButtonKind {
    KeyboardKey(KeyboardKey),
    MouseButton(MouseButton),
    Touch(TouchId),
}

/// Amount scrolled by one mouse scroll event.
#[derive(Clone, Copy, Debug, Eq, Hash, PartialEq, Structural)]
pub struct MouseScrollDelta {
    pub x: i32,
    pub y: i32,
}

} // verus!
