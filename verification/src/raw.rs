//! Raw input events as delivered by the platform.

use vstd::prelude::*;

use crate::button::{MouseButton, MouseScrollDelta, TouchId};
use crate::keyboard::KeyboardKey;

verus! {

pub type EventCoord = i32;

pub type EventCoords = (EventCoord, EventCoord);

/// A raw input event; `Custom` carries application-defined gestures.
#[derive(Debug, PartialEq)]
pub enum RawInput<T> {
    KeyDown(KeyboardKey),
    KeyUp(KeyboardKey),
    MouseDown(MouseButton),
    MouseUp(MouseButton),
    MouseMove(EventCoords),
    MouseWheelDown,
    MouseWheelUp,
    MouseScroll(MouseScrollDelta),
    TouchStart { touch_id: TouchId, coords: EventCoords },
    TouchEnd { touch_id: TouchId },
    TouchMove { touch_id: TouchId, coords: EventCoords },
    Char(String),
    Custom(T),
}

impl<T: Clone> Clone for RawInput<T> {
    fn clone(&self) -> (res: Self)
        ensures
            match *self {
                RawInput::Char(ch) => res matches RawInput::Char(c) && c@ == ch@,
                RawInput::Custom(ev) => res matches RawInput::Custom(e) && cloned(ev, e),
                other => res == other,
            },
    {
        match self {
            RawInput::KeyDown(key) => RawInput::KeyDown(*key),
            RawInput::KeyUp(key) => RawInput::KeyUp(*key),
            RawInput::MouseDown(button) => RawInput::MouseDown(*button),
            RawInput::MouseUp(button) => RawInput::MouseUp(*button),
            RawInput::MouseMove(coords) => RawInput::MouseMove(*coords),
            RawInput::MouseWheelDown => RawInput::MouseWheelDown,
            RawInput::MouseWheelUp => RawInput::MouseWheelUp,
            RawInput::MouseScroll(delta) => RawInput::MouseScroll(*delta),
            RawInput::TouchStart { touch_id, coords } => RawInput::TouchStart {
                touch_id: *touch_id,
                coords: *coords,
            },
            RawInput::TouchEnd { touch_id } => RawInput::TouchEnd { touch_id: *touch_id },
            RawInput::TouchMove { touch_id, coords } => RawInput::TouchMove {
                touch_id: *touch_id,
                coords: *coords,
            },
            RawInput::Char(ch) => RawInput::Char(ch.clone()),
            RawInput::Custom(ev) => RawInput::Custom(ev.clone()),
        }
    }
}

} // verus!
