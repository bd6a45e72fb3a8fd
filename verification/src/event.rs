//! Device-level event shapes: which device an event comes from, whether it
//! presses, releases or triggers, and the per-device switch state that
//! modifier tracking keeps.

use std::collections::HashSet;
use std::sync::Arc;
use vstd::prelude::*;

verus! {

/// An event of one of the three devices.
#[derive(Clone, Debug, Eq, PartialEq)]
pub enum Event<T1, T2, T3> {
    Keyboard(T1),
    Mouse(T2),
    Touch(T3),
}

/// What an event does: press or release a switch, or trigger something.
#[derive(Clone, Debug, Eq, PartialEq)]
pub enum EventKind<T1, T2> {
    Press(T1),
    Release(T1),
    Trigger(T2),
}

/// A keyboard event with the keyboard switches enabled at its time.
#[derive(Clone, Debug)]
pub struct KeyboardEvent<T1, T2> {
    raw: T1,
    keyboard_switches: Arc<HashSet<T2>>,
}

/// A mouse event with the keyboard and mouse switches enabled at its time
/// and the mouse values.
#[derive(Clone, Debug)]
pub struct MouseEvent<T1, T2, T3, T4> {
    raw: T1,
    keyboard_switches: Arc<HashSet<T2>>,
    mouse_switches: Arc<HashSet<T3>>,
    mouse_values: Arc<T4>,
}

/// The switches enabled on every device.
#[derive(Debug)]
pub struct ModifiersState<T11, T21, T22, T31, T32> {
    keyboard: KeyboardState<T11>,
    mouse: MouseState<T21, T22>,
    touch: TouchState<T31, T32>,
}

#[derive(Debug)]
pub struct KeyboardState<T1> {
    switches: HashSet<T1>,
}

#[derive(Debug)]
pub struct MouseState<T1, T2> {
    switches: HashSet<T1>,
    values: T2,
}

#[derive(Debug)]
pub struct TouchState<T1, T2> {
    switches: HashSet<T1>,
    values: T2,
}

} // verus!
