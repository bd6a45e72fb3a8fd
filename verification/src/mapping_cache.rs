//! Per-event-kind lookup tables of a device mapping.

use vstd::prelude::*;

verus! {

/// A generic structure that stores input mapping cache.
///
/// The structure is used to speed up and optimize the input bindings lookup.
#[derive(Clone, Debug)]
pub struct MappingCache<Pr, Re, Lo, Cl, Tr, Co> {
    /// Mapping cache for press events.
    pub press: Pr,
    /// Mapping cache for release events.
    pub release: Re,
    /// Mapping cache for long press events.
    pub long_press: Lo,
    /// Mapping cache for click exact events.
    pub click_exact: Cl,
    /// Mapping cache for trigger events.
    pub trigger: Tr,
    /// Mapping cache for move events.
    pub coords: Co,
}

} // verus!
