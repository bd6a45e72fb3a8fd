//! The state kept for one input device.

use vstd::prelude::*;

verus! {

/// The processing state of one input device: its modifiers, pointer
/// coordinates, timing state, the two timeout schedulers and the pointer state.
#[derive(Clone, Debug, Default)]
pub struct DeviceState<Mo, Cs, Ts, ShLo, ShCl, Po> {
    pub modifiers: Mo,
    pub coords_state: Cs,
    pub timed_state: Ts,
    pub long_press_scheduler: ShLo,
    pub click_exact_scheduler: ShCl,
    pub pointer_state: Po,
}

impl<Mo, Cs, Ts, ShLo, ShCl, Po> DeviceState<Mo, Cs, Ts, ShLo, ShCl, Po> {
    /// Builds the state from its parts.
    pub fn new(
        modifiers: Mo,
        coords_state: Cs,
        timed_state: Ts,
        long_press_scheduler: ShLo,
        click_exact_scheduler: ShCl,
        pointer_state: Po,
    ) -> (res: Self)
        ensures
            res.modifiers == modifiers,
            res.coords_state == coords_state,
            res.timed_state == timed_state,
            res.long_press_scheduler == long_press_scheduler,
            res.click_exact_scheduler == click_exact_scheduler,
            res.pointer_state == pointer_state,
    {
        Self {
            modifiers,
            coords_state,
            timed_state,
            long_press_scheduler,
            click_exact_scheduler,
            pointer_state,
        }
    }
}
} // verus!
