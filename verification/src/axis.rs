//! Continuous inputs: mouse and touch coordinates.

use vstd::prelude::*;

use crate::button::TouchId;

verus! {

pub type AxisValue = i32;

/// A coordinate of a pointing device.
#[derive(Clone, Copy, Debug, Eq, Hash, PartialEq, Structural)]
pub enum AxisKind {
    MouseX,
    MouseY,
    TouchX(TouchId),
    TouchY(TouchId),
}

/// A change of a coordinate; `None` when the coordinate stops existing
/// (the touch ended).
#[derive(Clone, Copy, Debug, Eq, Hash, PartialEq, Structural)]
pub struct Axis {
    pub kind: AxisKind,
    pub value: Option<AxisValue>,
}

impl Axis {
    pub fn new(kind: AxisKind, value: Option<AxisValue>) -> (res: Self)
        ensures
            res.kind == kind,
            res.value == value,
    {
        Self { kind, value }
    }
}

} // verus!
