//! Events that combine modified inputs with timed (click) inputs, and the
//! application events they are mapped to.

use std::sync::Arc;
use vstd::prelude::*;

use crate::button::ButtonKind;
use crate::modified::ModifiedInput;
use crate::modifiers::Modifiers;

verus! {

/// Milliseconds since an arbitrary origin.
pub type TimestampMs = u64;

/// A click-like input detected by timing a button.
#[derive(Clone, Copy, Debug, Eq, Hash, PartialEq)]
pub enum TimedInput {
    Click { button: ButtonKind, num_clicks: u32 },
    LongClick { button: ButtonKind, num_clicks: u32 },
    LongPress { button: ButtonKind, num_clicks: u32 },
    ClickExact { button: ButtonKind, num_clicks: u32 },
    LongClickExact { button: ButtonKind, num_clicks: u32 },
}

#[derive(Clone, Debug, Eq, Hash, PartialEq)]
pub enum CombinedInput<T> {
    Modified(ModifiedInput<T>),
    Timed(TimedInput),
}

/// A combined input with the modifiers at its time.
#[derive(Clone, Debug)]
pub struct CombinedEvent<T> {
    pub input: CombinedInput<T>,
    pub modifiers: Arc<Modifiers>,
    pub timestamp: TimestampMs,
}

/// An application event and the time of the input that caused it.
#[derive(Clone, Debug, Eq, Hash, PartialEq)]
pub struct Event<T> {
    pub input: T,
    pub timestamp: TimestampMs,
}

} // verus!
