//! Keyboard keys, named after their position on a standard layout.

use vstd::prelude::*;

verus! {

/// A keyboard key. Keys that have no variant of their own are `Other`.
#[derive(Clone, Copy, Debug, Eq, Hash, Ord, PartialEq, PartialOrd, Structural)]
pub enum KeyboardKey {
    // first row
    Escape,
    F1,
    F2,
    F3,
    F4,
    F5,
    F6,
    F7,
    F8,
    F9,
    F10,
    F11,
    F12,
    // second row
    Backquote,
    Digit1,
    Digit2,
    Digit3,
    Digit4,
    Digit5,
    Digit6,
    Digit7,
    Digit8,
    Digit9,
    Digit0,
    Minus,
    Equal,
    Backspace,
    // third row
    Tab,
    KeyQ,
    KeyW,
    KeyE,
    KeyR,
    KeyT,
    KeyY,
    KeyU,
    KeyI,
    KeyO,
    KeyP,
    LeftBracket,
    Bracket,
    Backslash,
    // fourth row
    CapsLock,
    KeyA,
    KeyS,
    KeyD,
    KeyF,
    KeyG,
    KeyH,
    KeyJ,
    KeyK,
    KeyL,
    Semicolon,
    Quote,
    Enter,
    // fifth row
    LeftShift,
    KeyZ,
    KeyX,
    KeyC,
    KeyV,
    KeyB,
    KeyN,
    KeyM,
    Comma,
    Period,
    Slash,
    RightShift,
    // sixth row
    LeftCtrl,
    LeftOs,
    LeftAlt,
    Space,
    RightAlt,
    RightOs,
    ContextMenu,
    RightCtrl,
    // middle section
    PrintScreen,
    ScrollLock,
    Pause,
    Insert,
    Home,
    PageUp,
    Delete,
    End,
    PageDown,
    ArrowUp,
    ArrowLeft,
    ArrowDown,
    ArrowRight,
    // numpad
    NumLock,
    NumpadDivide,
    NumpadMultiply,
    NumpadSubstract,
    Numpad9,
    Numpad8,
    Numpad7,
    NumpadAdd,
    Numpad4,
    Numpad5,
    Numpad6,
    Numpad3,
    Numpad2,
    Numpad1,
    NumpadEnter,
    Numpad0,
    NumpadDecimal,
    // Other
    Other,
}

} // verus!
