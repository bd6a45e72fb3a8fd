//! Styled text.

use vstd::prelude::*;

verus! {

/// A piece of text and its style.
#[derive(Clone, Debug)]
pub struct Text {
    value: String,
    style: Style,
}

#[derive(Clone, Copy, Debug, Eq, PartialEq)]
pub enum Style {
    Default,
    Bold,
    SuperBold,
}

} // verus!
